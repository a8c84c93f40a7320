use shreddit::cli::Config;
use shreddit::filter::SkipReason;
use shreddit::things::comment::Comment;
use shreddit::things::friend::Friend;
use shreddit::things::post::Post;
use shreddit::things::saved_comment::SavedComment;
use shreddit::things::saved_post::SavedPost;
use shreddit::things::subreddit_set::SubredditSet;
use shreddit::things::thing::Thing;
use shreddit::things::upvoted::{Upvoted, UpvotedSource};
use shreddit::things::{Origin, Provenance};
use shreddit::time::Timestamp;

fn live_comment(id: &str, subreddit: &str, score: i64, secs: i64) -> Comment {
    Comment {
        id: id.to_string(),
        body: "hello".to_string(),
        permalink: "/r/x/1".to_string(),
        subreddit: subreddit.to_string(),
        source: Provenance::Live { score, created_at: Timestamp::from_secs(secs), editable: true },
    }
}

fn exported_comment(id: &str, subreddit: &str, secs: i64) -> Comment {
    Comment {
        id: id.to_string(),
        body: "hello".to_string(),
        permalink: "/r/x/1".to_string(),
        subreddit: subreddit.to_string(),
        source: Provenance::Exported { created_at: Timestamp::from_secs(secs) },
    }
}

fn live_post(id: &str, subreddit: &str, score: i64, secs: i64) -> Post {
    Post {
        id: id.to_string(),
        title: "a title".to_string(),
        permalink: "/r/x/2".to_string(),
        subreddit: subreddit.to_string(),
        source: Provenance::Live { score, created_at: Timestamp::from_secs(secs), editable: true },
    }
}

#[test]
fn nothing_configured_keeps_every_kind() {
    let config = Config::new("me");
    assert!(!live_comment("a", "foo", 10, 100).should_skip(&config));
    assert!(!exported_comment("a", "foo", 100).should_skip(&config));
    assert!(!live_post("p", "foo", 10, 100).should_skip(&config));
    let saved = SavedComment {
        id: "s".to_string(),
        subreddit: "foo".to_string(),
        permalink: String::new(),
        origin: Origin::Live,
    };
    assert!(!saved.should_skip(&config));
    let saved_post = SavedPost {
        id: "s".to_string(),
        subreddit: "foo".to_string(),
        permalink: String::new(),
        origin: Origin::Exported,
    };
    assert!(!saved_post.should_skip(&config));
    let friend = Friend { username: "pal".to_string(), origin: Origin::Exported };
    assert!(!friend.should_skip(&config));
    let up = Upvoted {
        id: "u".to_string(),
        permalink: String::new(),
        source: UpvotedSource::Exported,
        type_id: "t3".to_string(),
    };
    assert!(!up.should_skip(&config));
    assert_eq!(Thing::Comment(live_comment("a", "foo", 10, 100)).skip_reason(&config), None);
}

#[test]
fn item_created_exactly_at_before_is_skipped() {
    let mut config = Config::new("me");
    config.before = Some(Timestamp { secs: 1_000, nanos: 0 });
    let at_bound = live_comment("a", "foo", 1, 1_000);
    assert!(at_bound.should_skip(&config));
    assert_eq!(at_bound.skip_reason(&config), Some(SkipReason::TooNew));
    let newer = live_comment("a", "foo", 1, 1_001);
    assert_eq!(newer.skip_reason(&config), Some(SkipReason::TooNew));
    let older = live_comment("a", "foo", 1, 999);
    assert!(!older.should_skip(&config));
    let at_bound_export = exported_comment("a", "foo", 1_000);
    assert_eq!(at_bound_export.skip_reason(&config), Some(SkipReason::TooNew));
    assert!(!exported_comment("a", "foo", 999).should_skip(&config));
}

#[test]
fn before_bound_compares_nanoseconds() {
    let mut config = Config::new("me");
    config.before = Some(Timestamp { secs: 1_000, nanos: 500 });
    let mut comment = live_comment("a", "foo", 1, 1_000);
    assert!(!comment.should_skip(&config));
    comment.source = Provenance::Live {
        score: 1,
        created_at: Timestamp { secs: 1_000, nanos: 500 },
        editable: true,
    };
    assert!(comment.should_skip(&config));
    comment.source = Provenance::Live {
        score: 1,
        created_at: Timestamp { secs: 1_000, nanos: 499 },
        editable: true,
    };
    assert!(!comment.should_skip(&config));
}

#[test]
fn only_subreddits_skips_other_subreddits() {
    let mut config = Config::new("me");
    config.only_subreddits = Some(SubredditSet::from("foo"));
    let bar = live_comment("a", "bar", 1, 10);
    assert!(bar.should_skip(&config));
    assert_eq!(bar.skip_reason(&config), Some(SkipReason::OtherSubreddit));
    let foo = live_comment("a", "foo", 1, 10);
    assert!(!foo.should_skip(&config));
    assert_eq!(foo.skip_reason(&config), None);
}

#[test]
fn skip_subreddits_skips_listed_subreddits() {
    let mut config = Config::new("me");
    config.skip_subreddits = Some(SubredditSet::from("foo,baz"));
    assert_eq!(
        live_post("p", "baz", 1, 10).skip_reason(&config),
        Some(SkipReason::SkippedSubreddit)
    );
    assert_eq!(live_post("p", "bar", 1, 10).skip_reason(&config), None);
    let saved = SavedComment {
        id: "s".to_string(),
        subreddit: "foo".to_string(),
        permalink: String::new(),
        origin: Origin::Live,
    };
    assert!(saved.should_skip(&config));
}

#[test]
fn skip_ids_are_looked_up_by_kind() {
    let mut config = Config::new("me");
    config.skip_comment_ids = Some(SubredditSet::from("c1,c2"));
    config.skip_post_ids = Some(SubredditSet::from("p1"));
    assert_eq!(live_comment("c2", "foo", 1, 10).skip_reason(&config), Some(SkipReason::SkippedId));
    assert_eq!(live_comment("p1", "foo", 1, 10).skip_reason(&config), None);
    assert_eq!(live_post("p1", "foo", 1, 10).skip_reason(&config), Some(SkipReason::SkippedId));
    assert_eq!(live_post("c1", "foo", 1, 10).skip_reason(&config), None);
    let friend = Friend { username: "c1".to_string(), origin: Origin::Live };
    assert!(!friend.should_skip(&config));
    let up = Upvoted {
        id: "c1".to_string(),
        permalink: String::new(),
        source: UpvotedSource::Live { subreddit: "foo".to_string() },
        type_id: "t3".to_string(),
    };
    assert_eq!(up.skip_reason(&config), Some(SkipReason::SkippedId));
}

#[test]
fn max_score_is_an_inclusive_bound_on_live_items() {
    let mut config = Config::new("me");
    config.max_score = Some(5);
    assert_eq!(live_comment("a", "foo", 6, 10).skip_reason(&config), Some(SkipReason::ScoreTooHigh));
    assert_eq!(live_comment("a", "foo", 5, 10).skip_reason(&config), None);
    assert_eq!(live_post("a", "foo", -3, 10).skip_reason(&config), None);
}

#[test]
fn max_score_skips_every_exported_item_with_an_error() {
    let mut config = Config::new("me");
    config.max_score = Some(1_000_000);
    let comment = exported_comment("a", "foo", 10);
    assert!(comment.should_skip(&config));
    let reason = comment.skip_reason(&config).unwrap();
    assert_eq!(reason, SkipReason::ScoreUnavailable);
    assert!(reason.is_error());
    let friend = Friend { username: "pal".to_string(), origin: Origin::Exported };
    assert_eq!(friend.skip_reason(&config), Some(SkipReason::ScoreUnavailable));
    let up = Upvoted {
        id: "u".to_string(),
        permalink: String::new(),
        source: UpvotedSource::Exported,
        type_id: "t3".to_string(),
    };
    assert_eq!(up.skip_reason(&config), Some(SkipReason::ScoreUnavailable));
    let live_friend = Friend { username: "pal".to_string(), origin: Origin::Live };
    assert!(!live_friend.should_skip(&config));
    assert!(!SkipReason::TooNew.is_error());
}

#[test]
fn after_bound_skips_items_at_or_before_it() {
    let mut config = Config::new("me");
    config.after = Some(Timestamp::from_secs(50));
    assert_eq!(live_comment("a", "foo", 1, 50).skip_reason(&config), Some(SkipReason::TooOld));
    assert_eq!(live_comment("a", "foo", 1, 49).skip_reason(&config), Some(SkipReason::TooOld));
    assert_eq!(live_comment("a", "foo", 1, 51).skip_reason(&config), None);
    assert_eq!(exported_comment("a", "foo", 50).skip_reason(&config), Some(SkipReason::TooOld));
}

#[test]
fn rules_are_tried_in_their_order() {
    let mut config = Config::new("me");
    config.skip_comment_ids = Some(SubredditSet::from("a"));
    config.skip_subreddits = Some(SubredditSet::from("foo"));
    config.before = Some(Timestamp::from_secs(5));
    config.max_score = Some(0);
    config.after = Some(Timestamp::from_secs(100));
    assert_eq!(live_comment("a", "foo", 9, 10).skip_reason(&config), Some(SkipReason::SkippedId));
    assert_eq!(
        live_comment("b", "foo", 9, 10).skip_reason(&config),
        Some(SkipReason::SkippedSubreddit)
    );
    assert_eq!(live_comment("b", "bar", 9, 10).skip_reason(&config), Some(SkipReason::TooNew));
    assert_eq!(live_comment("b", "bar", 9, 4).skip_reason(&config), Some(SkipReason::ScoreTooHigh));
    assert_eq!(live_comment("b", "bar", 0, 4).skip_reason(&config), Some(SkipReason::TooOld));
    assert_eq!(
        exported_comment("b", "bar", 4).skip_reason(&config),
        Some(SkipReason::ScoreUnavailable)
    );
}

#[test]
fn thing_answers_as_the_item_it_holds() {
    let mut config = Config::new("me");
    config.only_subreddits = Some(SubredditSet::from("foo"));
    let thing = Thing::Post(live_post("p", "bar", 1, 10));
    assert!(thing.should_skip(&config));
    assert_eq!(thing.created(), Some(Timestamp::from_secs(10)));
    assert_eq!(thing.score(), Some(1));
    let friend = Thing::Friend(Friend { username: "pal".to_string(), origin: Origin::Live });
    assert!(!friend.should_skip(&config));
    assert_eq!(friend.created(), None);
    assert_eq!(friend.score(), None);
    assert_eq!(Thing::Comment(exported_comment("a", "foo", 3)).score(), None);
}

#[test]
fn config_with_both_subreddit_sets_is_inconsistent() {
    let mut config = Config::new("me");
    assert!(config.is_consistent());
    config.skip_subreddits = Some(SubredditSet::from("a"));
    assert!(config.is_consistent());
    config.only_subreddits = Some(SubredditSet::from("b"));
    assert!(!config.is_consistent());
}
