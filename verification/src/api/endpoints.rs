//! The Reddit API requests the downloader makes: paths and query parameters.
use vstd::prelude::*;
use crate::text::{decimal, push_str, u64_to_decimal};

verus! {

/// A subreddit from /subreddits/mine/subscriber
#[derive(Debug, Clone)]
pub struct Subreddit {
    pub display_name: String,
    pub url: Option<String>,
    pub subreddit_type: Option<String>,
}

/// A GET request to the OAuth API: a path and its query parameters.
#[derive(Debug, Clone)]
pub struct ApiRequest {
    pub path: String,
    pub params: Vec<(String, String)>,
}

/// Query parameters by their characters.
pub open spec fn params_view(ps: Seq<(String, String)>) -> Seq<(Seq<char>, Seq<char>)> {
    ps.map_values(|p: (String, String)| (p.0@, p.1@))
}

impl ApiRequest {
    /// The request's path and parameters by their characters.
    pub open spec fn spec_view(&self) -> (Seq<char>, Seq<(Seq<char>, Seq<char>)>) {
        (self.path@, params_view(self.params@))
    }
}

/// The `after` parameter, when there is a cursor.
pub open spec fn with_after(ps: Seq<(Seq<char>, Seq<char>)>, after: Option<Seq<char>>) -> Seq<
    (Seq<char>, Seq<char>),
> {
    match after {
        Some(a) => ps.push(("after"@, a)),
        None => ps,
    }
}

fn param(k: &str, v: &str) -> (r: (String, String))
    ensures
        r.0@ == k@,
        r.1@ == v@,
{
    (String::from_str(k), String::from_str(v))
}

fn push_param(ps: &mut Vec<(String, String)>, k: &str, v: &str)
    ensures
        params_view(final(ps)@) == params_view(old(ps)@).push((k@, v@)),
{
    let p = param(k, v);
    ps.push(p);
    assert(params_view(ps@) == params_view(old(ps)@).push((k@, v@)));
}

fn push_after(ps: &mut Vec<(String, String)>, after: Option<&str>)
    ensures
        params_view(final(ps)@) == with_after(
            params_view(old(ps)@),
            match after {
                Some(a) => Some(a@),
                None => None,
            },
        ),
{
    match after {
        Some(a) => push_param(ps, "after", a),
        None => {},
    }
}

/// The friends list: `/api/v1/me/friends?limit=100`.
pub fn friends_request() -> (r: ApiRequest)
    ensures
        r.spec_view() == ("/api/v1/me/friends"@, seq![("limit"@, "100"@)]),
{
    let mut params: Vec<(String, String)> = Vec::new();
    push_param(&mut params, "limit", "100");
    ApiRequest { path: String::from_str("/api/v1/me/friends"), params }
}

/// One page of the user's subscriptions.
pub fn subscriptions_request(after: Option<&str>) -> (r: ApiRequest)
    ensures
        r.spec_view() == (
            "/subreddits/mine/subscriber"@,
            with_after(
                seq![("limit"@, "100"@)],
                match after {
                    Some(a) => Some(a@),
                    None => None,
                },
            ),
        ),
{
    let mut params: Vec<(String, String)> = Vec::new();
    push_param(&mut params, "limit", "100");
    push_after(&mut params, after);
    ApiRequest { path: String::from_str("/subreddits/mine/subscriber"), params }
}

/// One page of the posts a user submitted, newest first.
pub fn user_posts_request(username: &str, after: Option<&str>, limit: u32) -> (r: ApiRequest)
    ensures
        r.spec_view() == (
            "/user/"@ + username@ + "/submitted"@,
            with_after(
                seq![("limit"@, decimal(limit as nat)), ("sort"@, "new"@), ("raw_json"@, "1"@)],
                match after {
                    Some(a) => Some(a@),
                    None => None,
                },
            ),
        ),
{
    let limit_str = u64_to_decimal(limit as u64);
    let mut params: Vec<(String, String)> = Vec::new();
    push_param(&mut params, "limit", limit_str.as_str());
    push_param(&mut params, "sort", "new");
    push_param(&mut params, "raw_json", "1");
    push_after(&mut params, after);
    let mut path = String::from_str("/user/");
    push_str(&mut path, username);
    push_str(&mut path, "/submitted");
    ApiRequest { path, params }
}

/// One page of a user's saved posts.
pub fn saved_request(username: &str, after: Option<&str>, limit: u32) -> (r: ApiRequest)
    ensures
        r.spec_view() == (
            "/user/"@ + username@ + "/saved"@,
            with_after(
                seq![("limit"@, decimal(limit as nat)), ("raw_json"@, "1"@)],
                match after {
                    Some(a) => Some(a@),
                    None => None,
                },
            ),
        ),
{
    let limit_str = u64_to_decimal(limit as u64);
    let mut params: Vec<(String, String)> = Vec::new();
    push_param(&mut params, "limit", limit_str.as_str());
    push_param(&mut params, "raw_json", "1");
    push_after(&mut params, after);
    let mut path = String::from_str("/user/");
    push_str(&mut path, username);
    push_str(&mut path, "/saved");
    ApiRequest { path, params }
}

/// One page of a subreddit's newest posts.
pub fn subreddit_posts_request(subreddit: &str, after: Option<&str>, limit: u32) -> (r: ApiRequest)
    ensures
        r.spec_view() == (
            "/r/"@ + subreddit@ + "/new"@,
            with_after(
                seq![("limit"@, decimal(limit as nat)), ("raw_json"@, "1"@)],
                match after {
                    Some(a) => Some(a@),
                    None => None,
                },
            ),
        ),
{
    let limit_str = u64_to_decimal(limit as u64);
    let mut params: Vec<(String, String)> = Vec::new();
    push_param(&mut params, "limit", limit_str.as_str());
    push_param(&mut params, "raw_json", "1");
    push_after(&mut params, after);
    let mut path = String::from_str("/r/");
    push_str(&mut path, subreddit);
    push_str(&mut path, "/new");
    ApiRequest { path, params }
}

/// The comments of a post.
pub fn post_comments_request(subreddit: &str, post_id: &str) -> (r: ApiRequest)
    ensures
        r.spec_view() == (
            "/r/"@ + subreddit@ + "/comments/"@ + post_id@,
            seq![("raw_json"@, "1"@)],
        ),
{
    let mut params: Vec<(String, String)> = Vec::new();
    push_param(&mut params, "raw_json", "1");
    let mut path = String::from_str("/r/");
    push_str(&mut path, subreddit);
    push_str(&mut path, "/comments/");
    push_str(&mut path, post_id);
    ApiRequest { path, params }
}

} // verus!
