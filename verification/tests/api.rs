use reddit_dl::api::auth::{token_from_response, AuthToken};
use reddit_dl::api::client::{
    api_url, attempts_exhausted_error, is_transient_network_error, is_transient_status, next_step,
    rate_limit_delay, retry_after_from_header, unexpected_status_error, Outcome, Step,
};
use reddit_dl::api::endpoints::{
    friends_request, post_comments_request, saved_request, subreddit_posts_request,
    subscriptions_request, user_posts_request,
};
use reddit_dl::api::types::{Listing, ListingData, Thing};
use reddit_dl::error::{Error, HttpFailure};

fn params(r: &reddit_dl::api::endpoints::ApiRequest) -> Vec<(&str, &str)> {
    r.params.iter().map(|(k, v)| (k.as_str(), v.as_str())).collect()
}

#[test]
fn transient_status_codes() {
    for s in [429u16, 500, 502, 503, 504] {
        assert!(is_transient_status(s));
    }
    for s in [200u16, 401, 403, 404, 501] {
        assert!(!is_transient_status(s));
    }
}

#[test]
fn transient_network_errors() {
    let f = |t: bool, c: bool| HttpFailure { message: "x".to_string(), is_timeout: t, is_connect: c };
    assert!(is_transient_network_error(&f(true, false)));
    assert!(is_transient_network_error(&f(false, true)));
    assert!(!is_transient_network_error(&f(false, false)));
}

#[test]
fn get_json_steps() {
    let st = |code: u16, retry_after: u64| Outcome::Status { code, retry_after };
    assert_eq!(next_step(0, false, st(200, 60)), Step::ParseBody);
    assert_eq!(next_step(0, false, st(401, 60)), Step::RefreshAndRetry);
    assert_eq!(next_step(1, true, st(401, 60)), Step::FailStatus);
    assert_eq!(next_step(0, false, st(429, 7)), Step::WaitAndRetry { secs: 7 });
    assert_eq!(next_step(2, false, st(429, 7)), Step::FailRateLimited { retry_after: 7 });
    assert_eq!(next_step(0, false, st(503, 60)), Step::WaitAndRetry { secs: 1 });
    assert_eq!(next_step(1, false, st(503, 60)), Step::WaitAndRetry { secs: 2 });
    assert_eq!(next_step(2, false, st(503, 60)), Step::FailStatus);
    assert_eq!(next_step(0, false, st(404, 60)), Step::FailStatus);
    assert_eq!(
        next_step(1, false, Outcome::NetworkError { transient: true }),
        Step::WaitAndRetry { secs: 2 }
    );
    assert_eq!(next_step(0, false, Outcome::NetworkError { transient: false }), Step::FailNetwork);
    assert_eq!(next_step(2, false, Outcome::NetworkError { transient: true }), Step::FailNetwork);
}

#[test]
fn retry_after_header_parsing() {
    assert_eq!(retry_after_from_header(Some("120")), 120);
    assert_eq!(retry_after_from_header(Some("+5")), 5);
    assert_eq!(retry_after_from_header(Some("soon")), 60);
    assert_eq!(retry_after_from_header(Some("")), 60);
    assert_eq!(retry_after_from_header(Some("99999999999999999999")), 60);
    assert_eq!(retry_after_from_header(None), 60);
}

#[test]
fn rate_limit_gap() {
    assert_eq!(rate_limit_delay(None), 0);
    assert_eq!(rate_limit_delay(Some(400_000_000)), 600_000_000);
    assert_eq!(rate_limit_delay(Some(2_000_000_000)), 0);
}

#[test]
fn api_urls_and_errors() {
    assert_eq!(api_url("/api/v1/me"), "https://oauth.reddit.com/api/v1/me");
    match unexpected_status_error("418 I'm a teapot", "https://oauth.reddit.com/x") {
        Error::Other(m) => assert_eq!(m, "Unexpected HTTP status 418 I'm a teapot for https://oauth.reddit.com/x"),
        other => panic!("unexpected {:?}", other),
    }
    match attempts_exhausted_error("u") {
        Error::Other(m) => assert_eq!(m, "All 3 attempts failed for u"),
        other => panic!("unexpected {:?}", other),
    }
}

#[test]
fn endpoint_requests() {
    let r = friends_request();
    assert_eq!(r.path, "/api/v1/me/friends");
    assert_eq!(params(&r), vec![("limit", "100")]);
    let r = subscriptions_request(Some("t5_x"));
    assert_eq!(r.path, "/subreddits/mine/subscriber");
    assert_eq!(params(&r), vec![("limit", "100"), ("after", "t5_x")]);
    let r = user_posts_request("spez", None, 25);
    assert_eq!(r.path, "/user/spez/submitted");
    assert_eq!(params(&r), vec![("limit", "25"), ("sort", "new"), ("raw_json", "1")]);
    let r = saved_request("me", Some("t3_a"), 100);
    assert_eq!(r.path, "/user/me/saved");
    assert_eq!(params(&r), vec![("limit", "100"), ("raw_json", "1"), ("after", "t3_a")]);
    let r = subreddit_posts_request("rust", None, 7);
    assert_eq!(r.path, "/r/rust/new");
    assert_eq!(params(&r), vec![("limit", "7"), ("raw_json", "1")]);
    let r = post_comments_request("rust", "abc");
    assert_eq!(r.path, "/r/rust/comments/abc");
    assert_eq!(params(&r), vec![("raw_json", "1")]);
}

#[test]
fn listing_into_page_keeps_order() {
    let listing = Listing {
        data: ListingData {
            children: vec![
                Thing { kind: "t3".to_string(), data: 1 },
                Thing { kind: "t3".to_string(), data: 2 },
                Thing { kind: "t3".to_string(), data: 3 },
            ],
            after: Some("t3_c".to_string()),
            before: None,
        },
    };
    let (items, next) = listing.into_page();
    assert_eq!(items, vec![1, 2, 3]);
    assert_eq!(next, Some("t3_c".to_string()));
}

#[test]
fn token_response_checks() {
    let ok = token_from_response(200, "200 OK", None, "tok".to_string(), 3600, 1_000_000_000_250).unwrap();
    assert_eq!(ok.access_token, "tok");
    assert_eq!(ok.expires_at, 4_600_000_000_250);
    match token_from_response(200, "200 OK", Some("invalid_grant".to_string()), "tok".to_string(), 3600, 0) {
        Err(Error::Auth(m)) => assert_eq!(m, "Reddit API error: invalid_grant"),
        other => panic!("unexpected {:?}", other),
    }
    match token_from_response(401, "401 Unauthorized", None, "tok".to_string(), 3600, 0) {
        Err(Error::Auth(m)) => assert_eq!(m, "HTTP 401 Unauthorized"),
        other => panic!("unexpected {:?}", other),
    }
    match token_from_response(200, "200 OK", None, String::new(), 3600, 0) {
        Err(Error::Auth(m)) => assert_eq!(m, "Empty access token received"),
        other => panic!("unexpected {:?}", other),
    }
}

#[test]
fn token_expiry_margin() {
    // Expiry at 1000.5 s: expired from 940.5 s on, to the nanosecond.
    let t = AuthToken { access_token: "x".to_string(), expires_at: 1_000_500_000_000 };
    assert!(!t.is_expired_at(940_000_000_000));
    assert!(!t.is_expired_at(940_499_999_999));
    assert!(t.is_expired_at(940_500_000_000));
    assert!(t.is_expired_at(2_000_000_000_000));
    let fresh = token_from_response(200, "200 OK", None, "x".to_string(), 3600, 5_000_000_000_000).unwrap();
    assert!(!fresh.is_expired_at(5_000_000_000_000));
}

#[test]
fn token_expiry_against_the_clock() {
    let old = AuthToken { access_token: "t".to_string(), expires_at: 0 };
    assert!(old.is_expired());
    let far = AuthToken { access_token: "t".to_string(), expires_at: 8_000_000_000_000_000_000_000 };
    assert!(!far.is_expired());
}
