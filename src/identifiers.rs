use vstd::prelude::*;

verus! {

/// A user identifier `@localpart:server_name`, held as its two parts.
#[derive(Debug)]
pub struct UserId {
    pub localpart: String,
    pub server_name: String,
}

impl View for UserId {
    type V = (Seq<char>, Seq<char>);

    open spec fn view(&self) -> (Seq<char>, Seq<char>) {
        (self.localpart@, self.server_name@)
    }
}

impl UserId {
    pub fn new(localpart: String, server_name: String) -> (r: UserId)
        ensures
            r@ == (localpart@, server_name@),
    {
        UserId { localpart, server_name }
    }

    /// Whether both identifiers name the same user.
    pub fn same_as(&self, other: &UserId) -> (r: bool)
        ensures
            r == (self@ == other@),
    {
        self.localpart == other.localpart && self.server_name == other.server_name
    }

    pub fn localpart(&self) -> (r: &str)
        ensures
            r@ == self.localpart@,
    {
        self.localpart.as_str()
    }

    pub fn duplicate(&self) -> (r: UserId)
        ensures
            r == *self,
    {
        UserId { localpart: self.localpart.clone(), server_name: self.server_name.clone() }
    }
}

} // verus!

verus! {

/// An entry of a room's roster: a user and the display name it goes by.
#[derive(Debug)]
pub struct RoomMember {
    pub user_id: UserId,
    pub name: String,
}

impl RoomMember {
    pub fn new(user_id: UserId, name: String) -> (r: RoomMember)
        ensures
            r.user_id@ == user_id@,
            r.name@ == name@,
    {
        RoomMember { user_id, name }
    }
}

/// The views of a sequence of strings.
pub open spec fn strings_view(v: Seq<String>) -> Seq<Seq<char>> {
    v.map_values(|s: String| s@)
}

} // verus!
