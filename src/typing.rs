use vstd::prelude::*;
use vstd::string::*;

use crate::identifiers::{strings_view, RoomMember, UserId};

verus! {

/// Whether `id` is one of `ids`.
pub open spec fn listed(ids: Seq<UserId>, id: (Seq<char>, Seq<char>)) -> bool {
    exists|j: int| 0 <= j < ids.len() && ids[j]@ == id
}

/// The display names of the roster entries whose user is listed as typing,
/// in roster order.
pub open spec fn typing_names_of(roster: Seq<RoomMember>, typing: Seq<UserId>) -> Seq<Seq<char>>
    decreases roster.len(),
{
    if roster.len() == 0 {
        seq![]
    } else {
        let rest = typing_names_of(roster.drop_last(), typing);
        if listed(typing, roster.last().user_id@) {
            rest.push(roster.last().name@)
        } else {
            rest
        }
    }
}

/// The names joined by `", "`.
pub open spec fn joined_names(names: Seq<Seq<char>>) -> Seq<char>
    decreases names.len(),
{
    if names.len() == 0 {
        seq![]
    } else if names.len() == 1 {
        names[0]
    } else {
        joined_names(names.drop_last()) + ", "@ + names.last()
    }
}

/// The summary shown for the names of the users who are typing: empty when
/// nobody is, `"<name> is typing..."` for one, `"<a>, <b> are typing..."`
/// for more.
pub open spec fn typing_summary_of(names: Seq<Seq<char>>) -> Seq<char> {
    if names.len() == 0 {
        seq![]
    } else if names.len() == 1 {
        joined_names(names) + " is typing..."@
    } else {
        joined_names(names) + " are typing..."@
    }
}

fn is_listed(ids: &Vec<UserId>, id: &UserId) -> (r: bool)
    ensures
        r == listed(ids@, id@),
{
    let mut i: usize = 0;
    while i < ids.len()
        invariant
            i <= ids.len(),
            forall|j: int| 0 <= j < i ==> ids@[j]@ != id@,
        decreases ids.len() - i,
    {
        if ids[i].same_as(id) {
            return true;
        }
        i = i + 1;
    }
    false
}

/// The display names of the roster entries listed in `typing`, in roster order.
pub fn typing_names(roster: &Vec<RoomMember>, typing: &Vec<UserId>) -> (r: Vec<String>)
    ensures
        strings_view(r@) == typing_names_of(roster@, typing@),
{
    let mut names: Vec<String> = Vec::new();
    let mut i: usize = 0;
    while i < roster.len()
        invariant
            i <= roster.len(),
            strings_view(names@) == typing_names_of(roster@.subrange(0, i as int), typing@),
        decreases roster.len() - i,
    {
        assert(roster@.subrange(0, i + 1).drop_last() =~= roster@.subrange(0, i as int));
        if is_listed(typing, &roster[i].user_id) {
            names.push(roster[i].name.clone());
            assert(strings_view(names@) =~= typing_names_of(
                roster@.subrange(0, i as int),
                typing@,
            ).push(roster@[i as int].name@));
        }
        i = i + 1;
    }
    assert(roster@.subrange(0, roster.len() as int) =~= roster@);
    names
}

/// Formats the typing summary for `names`.
pub fn typing_summary(names: &Vec<String>) -> (r: String)
    ensures
        r@ == typing_summary_of(strings_view(names@)),
{
    if names.len() == 0 {
        return String::new();
    }
    let mut s = names[0].clone();
    let mut i: usize = 1;
    assert(strings_view(names@.subrange(0, 1)) =~= seq![names@[0]@]);
    while i < names.len()
        invariant
            1 <= i <= names.len(),
            s@ == joined_names(strings_view(names@.subrange(0, i as int))),
        decreases names.len() - i,
    {
        assert(strings_view(names@.subrange(0, i + 1)).drop_last() =~= strings_view(
            names@.subrange(0, i as int),
        ));
        assert(strings_view(names@.subrange(0, i + 1)).last() == names@[i as int]@);
        s.append(", ");
        s.append(names[i].as_str());
        i = i + 1;
    }
    assert(names@.subrange(0, names.len() as int) =~= names@);
    if names.len() > 1 {
        s.append(" are typing...");
    } else {
        s.append(" is typing...");
    }
    s
}

/// The typing summary for a roster and the users listed as typing.
pub fn typing_notice(roster: &Vec<RoomMember>, typing: &Vec<UserId>) -> (r: String)
    ensures
        r@ == typing_summary_of(typing_names_of(roster@, typing@)),
{
    let names = typing_names(roster, typing);
    typing_summary(&names)
}

/// Nobody listed as typing gives the empty summary, whatever the roster.
pub proof fn lemma_nobody_typing(roster: Seq<RoomMember>)
    ensures
        typing_summary_of(typing_names_of(roster, seq![])) == Seq::<char>::empty(),
    decreases roster.len(),
{
    if roster.len() > 0 {
        lemma_nobody_typing(roster.drop_last());
    }
}

} // verus!
