//! Posts of the users the user follows.
use vstd::prelude::*;
use crate::api::endpoints::Subreddit;
use crate::text::{chars_of, starts_with, starts_with_str, string_of};

verus! {

/// Source that discovers followed users by finding subscribed subreddits
/// with the `u_` prefix (following a user subscribes to `u_username`).
pub struct FollowsSource {
    _username: String,
}

impl FollowsSource {
    /// The user whose follows these are.
    pub closed spec fn username(&self) -> Seq<char> {
        self._username@
    }

    /// The users `username` follows.
    pub fn new(username: String) -> (r: Self)
        ensures
            r.username() == username@,
    {
        FollowsSource { _username: username }
    }

    /// The source type, `follows`.
    pub fn source_type(&self) -> (r: &str)
        ensures
            r@ == "follows"@,
    {
        "follows"
    }

    /// The source name, `all`.
    pub fn source_name(&self) -> (r: &str)
        ensures
            r@ == "all"@,
    {
        "all"
    }
}

/// The followed users among subscription names: each name `u_X` gives `X`,
/// in order.
pub open spec fn followed_users(names: Seq<Seq<char>>) -> Seq<Seq<char>>
    decreases names.len(),
{
    if names.len() == 0 {
        Seq::empty()
    } else {
        let prev = followed_users(names.drop_last());
        if starts_with(names.last(), "u_"@) {
            prev.push(names.last().skip(2))
        } else {
            prev
        }
    }
}

/// The display names of subscriptions.
pub open spec fn display_names(subs: Seq<Subreddit>) -> Seq<Seq<char>> {
    subs.map_values(|s: Subreddit| s.display_name@)
}

/// Adds to `users` the followed users found in one page of subscriptions.
pub fn collect_followed_users(users: &mut Vec<String>, subs: &Vec<Subreddit>)
    ensures
        final(users)@.map_values(|u: String| u@) == old(users)@.map_values(|u: String| u@)
            + followed_users(display_names(subs@)),
{
    let ghost names = display_names(subs@);
    let ghost start = users@.map_values(|u: String| u@);
    proof {
        reveal_strlit("u_");
    }
    let mut i: usize = 0;
    while i < subs.len()
        invariant
            i <= subs.len(),
            names == display_names(subs@),
            users@.map_values(|u: String| u@) == start + followed_users(names.take(i as int)),
        decreases subs.len() - i,
    {
        let ghost prev = users@.map_values(|u: String| u@);
        assert(names.take(i + 1).drop_last() == names.take(i as int));
        assert(names.take(i + 1).last() == subs@[i as int].display_name@);
        let n = chars_of(subs[i].display_name.as_str());
        proof {
            reveal_strlit("u_");
        }
        if starts_with_str(&n, "u_") {
            let user = string_of(&n, 2, n.len());
            assert(n@.subrange(2, n@.len() as int) == n@.skip(2));
            users.push(user);
            assert(users@.map_values(|u: String| u@) == prev.push(user@));
        }
        i = i + 1;
    }
    assert(names.take(subs.len() as int) == names);
}

/// The walk through the pages of the user's subscriptions that gathers the
/// followed users.
pub struct FollowsWalk {
    /// The followed users found so far, in order.
    pub users: Vec<String>,
    /// The `after` token of the next page to fetch.
    pub after: Option<String>,
    /// Whether the walk is over.
    pub done: bool,
}

impl FollowsWalk {
    /// A walk that starts at the first page.
    pub fn new() -> (r: Self)
        ensures
            r.users@.len() == 0,
            r.after is None,
            !r.done,
    {
        FollowsWalk { users: Vec::new(), after: None, done: false }
    }

    /// Takes in one page of subscriptions and the `after` token that came
    /// with it. An empty page ends the walk and changes nothing else;
    /// otherwise its followed users are added, and the walk goes on to the
    /// next page if there is one.
    pub fn absorb(&mut self, subs: &Vec<Subreddit>, next_after: Option<String>)
        requires
            !old(self).done,
        ensures
            subs.len() == 0 ==> final(self).done && final(self).users@ == old(self).users@
                && final(self).after == old(self).after,
            subs.len() > 0 ==> final(self).users@.map_values(|u: String| u@) == old(
                self,
            ).users@.map_values(|u: String| u@) + followed_users(display_names(subs@))
                && final(self).after == next_after && final(self).done == next_after is None,
    {
        if subs.len() == 0 {
            self.done = true;
            return;
        }
        collect_followed_users(&mut self.users, subs);
        self.done = next_after.is_none();
        self.after = next_after;
    }
}

} // verus!
