//! RedGifs links, renditions and the session token.
use vstd::prelude::*;
use crate::download::imgur::{rest_after, url_core};
use crate::error::Error;
use crate::text::{
    after_last, after_last_exec, before_first, before_first_exec, chars_of, contains, contains_str,
    find, find_from, find_str, lemma_find_from, occurs_at, push_str, slice_vec, string_from, string_of,
    to_lowercase, trim_end_char_exec, lowercase,
};
use crate::time::{MAX_UTC_NANOS, MIN_UTC_NANOS, NANOS_PER_SEC};

verus! {

/// The renditions of a RedGifs clip.
#[derive(Debug, Clone)]
pub struct GifUrls {
    pub hd: Option<String>,
    pub sd: Option<String>,
    pub gif: Option<String>,
}

/// The id in a `/i/ID.ext` path, if non-empty.
pub open spec fn image_path_id(u: Seq<char>) -> Option<Seq<char>> {
    match find(u, "/i/"@) {
        Some(pos) => {
            let id = before_first(u.skip(pos + 3), '.');
            if id.len() > 0 {
                Some(id)
            } else {
                None
            }
        },
        None => None,
    }
}

/// The id in a CDN URL such as `thumbs2.redgifs.com/ID.mp4` or
/// `ID-mobile.mp4`: the last segment up to its first `.` and then its first
/// `-`, unless empty or naming the host.
pub open spec fn cdn_id(u: Seq<char>) -> Option<Seq<char>> {
    if contains(u, "redgifs.com/"@) {
        let id = before_first(before_first(after_last(u, '/'), '.'), '-');
        if id.len() > 0 && !contains(id, "redgifs"@) {
            Some(id)
        } else {
            None
        }
    } else {
        None
    }
}

/// The clip id of a RedGifs URL: after `/watch/`, else from an `/i/` path,
/// else from a CDN file name, once query, fragment and trailing slashes are
/// removed.
pub open spec fn gif_id(url: Seq<char>) -> Option<Seq<char>> {
    let u = url_core(url);
    match rest_after(u, "/watch/"@) {
        Some(id) => Some(id),
        None => match image_path_id(u) {
            Some(id) => Some(id),
            None => cdn_id(u),
        },
    }
}

fn image_path_id_exec(u: &Vec<char>) -> (r: Option<String>)
    ensures
        match r {
            Some(id) => image_path_id(u@) == Some(id@),
            None => image_path_id(u@) is None,
        },
{
    match find_str(u, "/i/") {
        Some(pos) => {
            proof {
                reveal_strlit("/i/");
                lemma_find_from(u@, "/i/"@, 0);
                assert(find_from(u@, "/i/"@, 0) == Some(pos as int));
                assert(occurs_at(u@, "/i/"@, pos as int));
            }
            let n = u.len();
            assert(pos + 3 <= n);
            let rest = slice_vec(u, pos + 3, n);
            assert(u@.subrange(pos + 3, n as int) == u@.skip(pos + 3));
            let id = before_first_exec(&rest, '.');
            if id.len() > 0 {
                Some(string_from(&id))
            } else {
                None
            }
        },
        None => None,
    }
}

fn cdn_id_exec(u: &Vec<char>) -> (r: Option<String>)
    ensures
        match r {
            Some(id) => cdn_id(u@) == Some(id@),
            None => cdn_id(u@) is None,
        },
{
    if !contains_str(u, "redgifs.com/") {
        return None;
    }
    let last = after_last_exec(u, '/');
    let a = before_first_exec(&last, '.');
    let id = before_first_exec(&a, '-');
    if id.len() > 0 && !contains_str(&id, "redgifs") {
        Some(string_from(&id))
    } else {
        None
    }
}

/// Extracts the clip id from a RedGifs URL, such as
/// `https://www.redgifs.com/watch/someid`, `https://i.redgifs.com/i/someid.gif`
/// or `https://thumbs2.redgifs.com/SomeId.mp4`.
pub fn extract_gif_id(url: &str) -> (r: Option<String>)
    ensures
        match r {
            Some(id) => gif_id(url@) == Some(id@),
            None => gif_id(url@) is None,
        },
{
    let u = chars_of(url);
    let a = before_first_exec(&u, '?');
    let b = before_first_exec(&a, '#');
    let core = trim_end_char_exec(&b, '/');
    let pv = chars_of("/watch/");
    match find_str(&core, "/watch/") {
        Some(pos) => {
            proof {
                lemma_find_from(core@, "/watch/"@, 0);
                assert(find_from(core@, "/watch/"@, 0) == Some(pos as int));
                assert(occurs_at(core@, "/watch/"@, pos as int));
            }
            let n = core.len();
            assert(pos + pv.len() <= n);
            let start = pos + pv.len();
            assert(core@.subrange(start as int, n as int) == core@.skip(start as int));
            if start < n {
                return Some(string_of(&core, start, n));
            }
        },
        None => {},
    }
    match image_path_id_exec(&core) {
        Some(id) => Some(id),
        None => cdn_id_exec(&core),
    }
}

/// The clip id of a RedGifs URL, or the error returned when it names none.
pub fn gif_id_for(url: &str) -> (r: Result<String, Error>)
    ensures
        match r {
            Ok(id) => gif_id(url@) == Some(id@),
            Err(Error::Other(msg)) => gif_id(url@) is None && msg@ == "Could not extract RedGifs ID from: "@
                + url@,
            Err(_) => false,
        },
{
    match extract_gif_id(url) {
        Some(id) => Ok(id),
        None => {
            let mut msg = String::from_str("Could not extract RedGifs ID from: ");
            push_str(&mut msg, url);
            Err(Error::Other(msg))
        },
    }
}

/// The `Authorization` header value for a RedGifs API request.
pub fn bearer_authorization(token: &str) -> (r: String)
    ensures
        r@ == "Bearer "@ + token@,
{
    let mut h = String::from_str("Bearer ");
    push_str(&mut h, token);
    h
}

/// The best rendition available: HD, then SD, then GIF.
pub open spec fn best_rendition(urls: GifUrls) -> Option<Seq<char>> {
    match urls.hd {
        Some(h) => Some(h@),
        None => match urls.sd {
            Some(s) => Some(s@),
            None => match urls.gif {
                Some(g) => Some(g@),
                None => None,
            },
        },
    }
}

/// The URL of the best available rendition, or the error returned when the
/// clip has none.
pub fn best_quality_url(urls: &GifUrls) -> (r: Result<String, Error>)
    ensures
        match r {
            Ok(u) => best_rendition(*urls) == Some(u@),
            Err(Error::Other(msg)) => best_rendition(*urls) is None && msg@
                == "RedGifs response has no download URLs"@,
            Err(_) => false,
        },
{
    match &urls.hd {
        Some(h) => Ok(h.clone()),
        None => match &urls.sd {
            Some(s) => Ok(s.clone()),
            None => match &urls.gif {
                Some(g) => Ok(g.clone()),
                None => Err(Error::Other(String::from_str("RedGifs response has no download URLs"))),
            },
        },
    }
}

/// HD is preferred: the best rendition is the HD one whenever there is one,
/// the SD one only without HD, the GIF only without either, and there is none
/// only when all three are missing.
pub proof fn lemma_best_rendition_order(urls: GifUrls)
    ensures
        urls.hd matches Some(h) ==> best_rendition(urls) == Some(h@),
        urls.hd is None ==> (urls.sd matches Some(s) ==> best_rendition(urls) == Some(s@)),
        urls.hd is None && urls.sd is None ==> (urls.gif matches Some(g) ==> best_rendition(urls)
            == Some(g@)),
        best_rendition(urls) is None <==> (urls.hd is None && urls.sd is None && urls.gif is None),
{
}

/// The API URL describing a clip; the id is lower-cased.
pub open spec fn gif_api_url_spec(id: Seq<char>) -> Seq<char> {
    "https://api.redgifs.com/v2/gifs/"@ + lowercase(id)
}

/// The API URL describing a clip.
pub fn gif_api_url(id: &str) -> (r: String)
    ensures
        r@ == gif_api_url_spec(id@),
{
    let lower = to_lowercase(id);
    gif_api_url_of_lowercase(lower.as_str())
}

/// The API URL of a clip whose id is already in lower case.
pub fn gif_api_url_of_lowercase(lower_id: &str) -> (r: String)
    ensures
        r@ == "https://api.redgifs.com/v2/gifs/"@ + lower_id@,
{
    let mut u = String::from_str("https://api.redgifs.com/v2/gifs/");
    push_str(&mut u, lower_id);
    u
}

/// The lifetime, in seconds, assumed for a RedGifs token.
pub const TOKEN_LIFETIME_SECS: i64 = 3600;

/// A cached RedGifs token.
#[derive(Debug, Clone)]
pub struct TokenData {
    pub access_token: String,
    /// The instant the token expires, in nanoseconds since the Unix epoch.
    pub expires_at: i128,
}

/// The lifetime of a token in nanoseconds.
pub open spec fn token_lifetime_nanos() -> int {
    TOKEN_LIFETIME_SECS * NANOS_PER_SEC
}

/// How long before its expiry, in nanoseconds, a cached token stops being
/// used: a minute.
pub open spec fn reuse_margin_nanos() -> int {
    60 * NANOS_PER_SEC
}

impl TokenData {
    /// A token fetched at `now` (in nanoseconds), valid for an hour.
    pub fn fetched_at(access_token: String, now: i128) -> (r: Self)
        requires
            MIN_UTC_NANOS <= now,
            now + token_lifetime_nanos() <= MAX_UTC_NANOS,
        ensures
            r.access_token == access_token,
            r.expires_at == now + token_lifetime_nanos(),
    {
        TokenData { access_token, expires_at: now + 3600000000000 }
    }

    /// A cached token is used while it expires more than a minute after `now`
    /// (in nanoseconds).
    pub fn is_fresh_at(&self, now: i128) -> (r: bool)
        ensures
            r == (self.expires_at > now + reuse_margin_nanos()),
    {
        let margin: i128 = 60000000000;
        if self.expires_at < i128::MIN + margin {
            return false;
        }
        self.expires_at - margin > now
    }
}

/// The token of the temporary-token response: its `token` field, else its
/// `access_token` field, else the error returned.
pub fn select_token(token: Option<String>, access_token: Option<String>) -> (r: Result<String, Error>)
    ensures
        match r {
            Ok(t) => match token {
                Some(x) => t == x,
                None => access_token == Some(t),
            },
            Err(Error::Auth(msg)) => token is None && access_token is None && msg@
                == "RedGifs auth response missing token field"@,
            Err(_) => false,
        },
{
    match token {
        Some(t) => Ok(t),
        None => match access_token {
            Some(t) => Ok(t),
            None => Err(Error::Auth(String::from_str("RedGifs auth response missing token field"))),
        },
    }
}

/// The error for a refused request for a temporary RedGifs token.
pub open spec fn auth_status_message(status_text: Seq<char>) -> Seq<char> {
    "RedGifs auth failed with status "@ + status_text
}

/// Accepts the response to a token request when its status is a success
/// (2xx); otherwise an authentication error naming the status as displayed.
pub fn check_auth_status(status: u16, status_text: &str) -> (r: Result<(), Error>)
    ensures
        200 <= status <= 299 ==> r is Ok,
        !(200 <= status <= 299) ==> (match r {
            Err(Error::Auth(msg)) => msg@ == auth_status_message(status_text@),
            _ => false,
        }),
{
    if 200 <= status && status <= 299 {
        return Ok(());
    }
    let mut msg = String::from_str("RedGifs auth failed with status ");
    push_str(&mut msg, status_text);
    Err(Error::Auth(msg))
}

/// What follows a response of the RedGifs API to a request for a clip.
pub enum GifFetchStep {
    /// The body holds the clip's renditions.
    Parse,
    /// The cached token was refused: drop it, fetch a new one and ask again.
    RefreshAndRetry,
    /// The request failed.
    Fail(Error),
}

/// A refused token is replaced, and the request repeated, once: on a 401 to
/// the first request.
pub open spec fn refreshes_token(status: u16, refreshed: bool) -> bool {
    status == 401 && !refreshed
}

/// The error for a clip request that failed.
pub open spec fn gif_status_message(status_text: Seq<char>, gif_id: Seq<char>, refreshed: bool) -> Seq<
    char,
> {
    "RedGifs API returned "@ + status_text + " for gif "@ + gif_id + if refreshed {
        " (after token refresh)"@
    } else {
        ""@
    }
}

/// Decides on the response to a clip request: `refreshed` tells whether the
/// request was made again with a new token, `status_text` is the status as
/// displayed (such as `404 Not Found`).
pub fn after_gif_response(status: u16, status_text: &str, gif_id: &str, refreshed: bool) -> (r:
    GifFetchStep)
    ensures
        match r {
            GifFetchStep::Parse => 200 <= status <= 299,
            GifFetchStep::RefreshAndRetry => refreshes_token(status, refreshed),
            GifFetchStep::Fail(Error::Other(msg)) => !(200 <= status <= 299) && !refreshes_token(
                status,
                refreshed,
            ) && msg@ == gif_status_message(status_text@, gif_id@, refreshed),
            GifFetchStep::Fail(_) => false,
        },
{
    if status == 401 && !refreshed {
        return GifFetchStep::RefreshAndRetry;
    }
    if 200 <= status && status <= 299 {
        return GifFetchStep::Parse;
    }
    let mut msg = String::from_str("RedGifs API returned ");
    push_str(&mut msg, status_text);
    push_str(&mut msg, " for gif ");
    push_str(&mut msg, gif_id);
    if refreshed {
        push_str(&mut msg, " (after token refresh)");
    }
    proof {
        reveal_strlit("");
    }
    GifFetchStep::Fail(Error::Other(msg))
}

/// A clip request is made at most twice: the request made again with a new
/// token is never followed by another refresh.
pub proof fn lemma_gif_token_refreshed_once(status: u16)
    ensures
        !refreshes_token(status, true),
{
}

/// A RedGifs token is reused from the cache for the first 59 minutes after it
/// was fetched, and fetched anew from then on.
pub proof fn lemma_cached_token_window(fetched: int, now: int)
    ensures
        (fetched + token_lifetime_nanos() > now + reuse_margin_nanos()) <==> now < fetched + 3540
            * NANOS_PER_SEC,
{
}

} // verus!
