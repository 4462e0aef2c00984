//! Posts of the user's friends.
use vstd::prelude::*;

verus! {

/// Meta-source that fetches the friends list, then fetches each friend's posts.
pub struct FriendsSource {
    _username: String,
}

impl FriendsSource {
    /// The user whose friends these are.
    pub closed spec fn username(&self) -> Seq<char> {
        self._username@
    }

    /// The friends of `username`.
    pub fn new(username: String) -> (r: Self)
        ensures
            r.username() == username@,
    {
        FriendsSource { _username: username }
    }

    /// The source type, `friends`.
    pub fn source_type(&self) -> (r: &str)
        ensures
            r@ == "friends"@,
    {
        "friends"
    }

    /// The source name, `all`: the posts of every friend share it.
    pub fn source_name(&self) -> (r: &str)
        ensures
            r@ == "all"@,
    {
        "all"
    }
}

} // verus!
