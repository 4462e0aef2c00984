use reddit_dl::api::endpoints::Subreddit;
use reddit_dl::config::SourcesConfig;
use reddit_dl::post::Post;
use reddit_dl::sources::follows::{collect_followed_users, FollowsSource, FollowsWalk};
use reddit_dl::sources::friends::FriendsSource;
use reddit_dl::sync::{sync_stop_cursor, PostAction, SyncBatch};
use reddit_dl::sources::subreddit::{SubredditPager, SubredditSource};
use reddit_dl::sources::{build_sources, posts_per_user, parse_source_spec, take_until_cursor, SourceSpec};

fn post(name: &str) -> Post {
    Post {
        id: name.trim_start_matches("t3_").to_string(),
        name: name.to_string(),
        title: String::new(),
        author: String::new(),
        subreddit: String::new(),
        permalink: String::new(),
        url: None,
        selftext: String::new(),
        is_self: false,
        is_video: false,
        score: 0,
        num_comments: 0,
        is_gallery: None,
        gallery_data: None,
        media_metadata: None,
        media: None,
        preview: None,
    }
}

fn names(ps: &[Post]) -> Vec<&str> {
    ps.iter().map(|p| p.name.as_str()).collect()
}

#[test]
fn source_names_and_types() {
    let f = FriendsSource::new("me".to_string());
    assert_eq!((f.source_type(), f.source_name()), ("friends", "all"));
    let f = FollowsSource::new("me".to_string());
    assert_eq!((f.source_type(), f.source_name()), ("follows", "all"));
    let s = SubredditSource::new("pics".to_string());
    assert_eq!((s.source_type(), s.source_name()), ("subreddits", "pics"));
}

#[test]
fn parse_source_specs() {
    assert!(matches!(parse_source_spec("user:spez", "me"), Some(SourceSpec::User(u)) if u == "spez"));
    assert!(matches!(parse_source_spec("subreddit:pics", "me"), Some(SourceSpec::Subreddit(s)) if s == "pics"));
    assert!(matches!(parse_source_spec("friends", "me"), Some(SourceSpec::Friends(u)) if u == "me"));
    assert!(matches!(parse_source_spec("follows", "me"), Some(SourceSpec::Follows(u)) if u == "me"));
    assert!(matches!(parse_source_spec("saved", "me"), Some(SourceSpec::Saved(u)) if u == "me"));
    assert!(parse_source_spec("bogus", "me").is_none());
}

#[test]
fn cli_sources_override_config() {
    let cfg = SourcesConfig { friends: true, follows: false, saved: true };
    let from_cfg = build_sources(&cfg, "me", &vec![]);
    assert_eq!(from_cfg.len(), 2);
    assert!(matches!(from_cfg[0], SourceSpec::Friends(_)));
    assert!(matches!(from_cfg[1], SourceSpec::Saved(_)));
    let from_cli = build_sources(&cfg, "me", &vec!["subreddit:rust".to_string(), "nope".to_string(), "follows".to_string()]);
    assert_eq!(from_cli.len(), 2);
    assert!(matches!(&from_cli[0], SourceSpec::Subreddit(s) if s == "rust"));
    assert!(matches!(from_cli[1], SourceSpec::Follows(_)));
}

#[test]
fn cursor_cuts_the_posts() {
    let ps = vec![post("t3_c"), post("t3_b"), post("t3_a")];
    assert_eq!(names(&take_until_cursor(ps.clone(), Some("t3_b"))), vec!["t3_c"]);
    assert_eq!(names(&take_until_cursor(ps.clone(), Some("t3_z"))), vec!["t3_c", "t3_b", "t3_a"]);
    assert_eq!(names(&take_until_cursor(ps.clone(), None)), vec!["t3_c", "t3_b", "t3_a"]);
    assert!(take_until_cursor(ps, Some("t3_c")).is_empty());
}

#[test]
fn followed_users_from_subscriptions() {
    let sub = |n: &str| Subreddit { display_name: n.to_string(), url: None, subreddit_type: None };
    let mut users = vec!["old".to_string()];
    collect_followed_users(&mut users, &vec![sub("u_alice"), sub("rust"), sub("u_bob")]);
    assert_eq!(users, vec!["old", "alice", "bob"]);
}

#[test]
fn pager_stops_at_limit_cursor_and_last_page() {
    let mut p = SubredditPager::new(Some(3));
    assert_eq!(p.next_limit(), 3);
    p.absorb(vec![post("t3_e"), post("t3_d")], Some("t3_d".to_string()), None);
    assert!(!p.done);
    assert_eq!(p.after, Some("t3_d".to_string()));
    assert_eq!(p.next_limit(), 1);
    p.absorb(vec![post("t3_c"), post("t3_b")], Some("t3_b".to_string()), None);
    assert!(p.done);
    assert_eq!(names(&p.collected), vec!["t3_e", "t3_d", "t3_c"]);

    let mut q = SubredditPager::new(None);
    assert_eq!(q.next_limit(), 100);
    q.absorb(vec![post("t3_e"), post("t3_d"), post("t3_c")], Some("t3_c".to_string()), Some("t3_d"));
    assert!(q.done);
    assert_eq!(names(&q.collected), vec!["t3_e"]);

    let mut r = SubredditPager::new(None);
    r.absorb(vec![post("t3_e")], None, None);
    assert!(r.done);
    let mut s = SubredditPager::new(None);
    s.absorb(vec![], Some("x".to_string()), None);
    assert!(s.done);
    assert!(s.collected.is_empty());
}

#[test]
fn follows_walk_pages_until_done() {
    let sub = |n: &str| Subreddit { display_name: n.to_string(), url: None, subreddit_type: None };
    let mut walk = FollowsWalk::new();
    walk.absorb(&vec![sub("u_alice"), sub("rust")], Some("t5_next".to_string()));
    assert!(!walk.done);
    assert_eq!(walk.after.as_deref(), Some("t5_next"));
    walk.absorb(&vec![sub("u_bob")], None);
    assert!(walk.done);
    assert_eq!(walk.users, vec!["alice".to_string(), "bob".to_string()]);

    let mut empty = FollowsWalk::new();
    empty.absorb(&vec![], Some("t5_x".to_string()));
    assert!(empty.done);
    assert!(empty.users.is_empty());
    assert_eq!(empty.after, None);
}

#[test]
fn posts_per_user_defaults_to_25() {
    assert_eq!(posts_per_user(None), 25);
    assert_eq!(posts_per_user(Some(7)), 7);
}

#[test]
fn full_sync_ignores_the_stored_cursor() {
    assert_eq!(sync_stop_cursor(true, Some("t3_b".to_string())), None);
    assert_eq!(sync_stop_cursor(false, Some("t3_b".to_string())), Some("t3_b".to_string()));
    assert_eq!(sync_stop_cursor(false, None), None);
}

#[test]
fn batch_skips_recorded_posts_and_leaves_newest_as_cursor() {
    let first = vec![post("t3_c"), post("t3_b")];
    let mut batch = SyncBatch::start(&first);
    assert_eq!(batch.cursor.as_deref(), Some("t3_c"));
    assert_eq!(batch.decide(false), PostAction::Download);
    assert_eq!(batch.decide(true), PostAction::Skip);
    assert_eq!((batch.tally.downloaded, batch.tally.skipped), (1, 1));
    assert!(SyncBatch::start(&vec![]).cursor.is_none());

    // The next sync sees two newer posts, then the batch: it stops at the cursor.
    let listing = vec![post("t3_e"), post("t3_d"), post("t3_c"), post("t3_b")];
    let stop = sync_stop_cursor(false, batch.cursor.clone());
    assert_eq!(names(&take_until_cursor(listing.clone(), stop.as_deref())), vec!["t3_e", "t3_d"]);
    let full = sync_stop_cursor(true, batch.cursor.clone());
    assert_eq!(names(&take_until_cursor(listing, full.as_deref())).len(), 4);
}
