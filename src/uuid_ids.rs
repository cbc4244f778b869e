use vstd::prelude::*;

verus! {

/// The 128-bit value of the UUID that `s` spells, or `None` where `s` spells
/// none.
pub uninterp spec fn uuid_parsed(s: Seq<char>) -> Option<u128>;

/// A randomly generated UUID: version 4 in bits 76..80 and the RFC 4122
/// variant (`0b10`) in bits 62..64.
pub open spec fn is_random_uuid(v: u128) -> bool {
    (v as int / 0x1000_0000_0000_0000_0000) % 16 == 4 && (v as int / 0x4000_0000_0000_0000) % 4
        == 2
}

/// Relies on `uuid::Uuid::parse_str` (with `Uuid::as_u128`): the value of the
/// UUID the text spells, which depends on the text alone.
#[verifier::external_body]
fn parse_uuid(s: &str) -> (r: Option<u128>)
    ensures
        r == uuid_parsed(s@),
{
    match uuid::Uuid::parse_str(s) {
        Ok(u) => Some(u.as_u128()),
        Err(_) => None,
    }
}

/// Relies on `uuid::Uuid::new_v4` (with `Uuid::as_u128`): random bytes with
/// the version set to 4 and the variant to RFC 4122.
#[verifier::external_body]
fn fresh_uuid() -> (r: u128)
    ensures
        is_random_uuid(r),
{
    uuid::Uuid::new_v4().as_u128()
}

/// What a dedupe identifier must be for a transaction id: the UUID it spells,
/// or a freshly generated random one where it is missing or spells none.
pub open spec fn dedupe_id_fits(transaction_id: Option<String>, id: u128) -> bool {
    match transaction_id {
        Some(t) => match uuid_parsed(t@) {
            Some(v) => id == v,
            None => is_random_uuid(id),
        },
        None => is_random_uuid(id),
    }
}

/// Picks the parsed identifier where there is one, else the fresh one.
pub fn choose_dedupe_id(parsed: Option<u128>, fresh: u128) -> (r: u128)
    ensures
        r == match parsed {
            Some(v) => v,
            None => fresh,
        },
{
    match parsed {
        Some(v) => v,
        None => fresh,
    }
}

/// The dedupe identifier of a message with the given transaction id.
pub fn dedupe_id(transaction_id: &Option<String>) -> (r: u128)
    ensures
        dedupe_id_fits(*transaction_id, r),
{
    let parsed = match transaction_id {
        Some(t) => parse_uuid(t.as_str()),
        None => None,
    };
    if parsed.is_some() {
        choose_dedupe_id(parsed, 0)
    } else {
        let fresh = fresh_uuid();
        choose_dedupe_id(parsed, fresh)
    }
}

} // verus!
