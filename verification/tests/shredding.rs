use shreddit::cli::{Config, Prevention};
use shreddit::filter::SkipReason;
use shreddit::json::{classify, is_rate_limited, EditOutcome, EditResponse, Json};
use shreddit::request::{bearer, headers, Method, Request};
use shreddit::shred::machine::{lookup_reply, step, Action, Event, Note, ShredState, Step};
use shreddit::shred::{shred, DeleteCall, DeletePlan, EditPlan, Shred};
use shreddit::things::comment::Comment;
use shreddit::things::friend::Friend;
use shreddit::things::post::Post;
use shreddit::things::saved_comment::SavedComment;
use shreddit::things::saved_post::SavedPost;
use shreddit::things::subreddit_set::SubredditSet;
use shreddit::things::thing::Thing;
use shreddit::things::upvoted::{Upvoted, UpvotedSource};
use shreddit::things::{first_listed, preview, Origin, Provenance, ShredditError};
use shreddit::throttle::Throttle;
use shreddit::time::Timestamp;

fn comment(source: Provenance) -> Thing {
    Thing::Comment(Comment {
        id: "abc".to_string(),
        body: "hello".to_string(),
        permalink: String::new(),
        subreddit: "foo".to_string(),
        source,
    })
}

fn live(editable: bool) -> Provenance {
    Provenance::Live { score: 1, created_at: Timestamp::from_secs(10), editable }
}

fn exported() -> Provenance {
    Provenance::Exported { created_at: Timestamp::from_secs(10) }
}

fn post() -> Thing {
    Thing::Post(Post {
        id: "p1".to_string(),
        title: "t".to_string(),
        permalink: String::new(),
        subreddit: "foo".to_string(),
        source: live(true),
    })
}

fn saved_comment() -> Thing {
    Thing::SavedComment(SavedComment {
        id: "s1".to_string(),
        subreddit: "foo".to_string(),
        permalink: String::new(),
        origin: Origin::Live,
    })
}

fn saved_post() -> Thing {
    Thing::SavedPost(SavedPost {
        id: "s2".to_string(),
        subreddit: "foo".to_string(),
        permalink: String::new(),
        origin: Origin::Live,
    })
}

fn friend() -> Thing {
    Thing::Friend(Friend { username: "pal".to_string(), origin: Origin::Live })
}

fn upvoted() -> Thing {
    Thing::Upvoted(Upvoted {
        id: "u1".to_string(),
        permalink: String::new(),
        source: UpvotedSource::Live { subreddit: "foo".to_string() },
        type_id: "t3".to_string(),
    })
}

fn header_pairs(request: &Request) -> Vec<(String, String)> {
    request.headers.iter().map(|h| (h.name.clone(), h.value.clone())).collect()
}

fn signed(token: &str, agent: &str) -> Vec<(String, String)> {
    vec![
        ("Authorization".to_string(), format!("Bearer {}", token)),
        ("User-Agent".to_string(), agent.to_string()),
    ]
}

fn marker() -> Json {
    Json::Text(".error.RATELIMIT.field-ratelimit".to_string())
}

fn rate_limited_body() -> Vec<Json> {
    vec![
        Json::Array(vec![Json::Other, Json::Other, Json::Text("call".to_string()), Json::Array(vec![])]),
        Json::Array(vec![
            Json::Other,
            Json::Text("attr".to_string()),
            Json::Array(vec![Json::Text("x".to_string()), marker()]),
        ]),
    ]
}

fn run(thing: &Thing, config: &Config, outcome: EditOutcome, found: Option<bool>) -> (Vec<Action>, Vec<Note>, ShredState) {
    let mut state = ShredState::Pending;
    let mut event = Event::Begin;
    let mut actions = Vec::new();
    let mut notes = Vec::new();
    loop {
        let next = step(thing, config, state, event).unwrap();
        if let Some(note) = next.note {
            notes.push(note);
        }
        actions.push(next.action);
        state = next.state;
        event = match next.action {
            Action::Edit => Event::EditReplied(outcome),
            Action::Lookup => Event::LookupReplied(found),
            Action::Wait => Event::Slept,
            Action::Delete(_) => Event::DeleteReplied(true),
            Action::Proceed => Event::Proceeded,
            Action::Finish | Action::Abort => return (actions, notes, state),
        };
    }
}

#[test]
fn marker_in_a_nested_list_means_rate_limited() {
    assert!(is_rate_limited(&rate_limited_body()));
    let response = EditResponse::Success { jquery: rate_limited_body(), success: false };
    assert_eq!(classify(&response), EditOutcome::RateLimited);
    let even_with_success = EditResponse::Success { jquery: rate_limited_body(), success: true };
    assert_eq!(classify(&even_with_success), EditOutcome::RateLimited);
}

#[test]
fn marker_counts_only_at_its_depth() {
    assert!(!is_rate_limited(&Vec::new()));
    assert!(!is_rate_limited(&vec![marker()]));
    assert!(!is_rate_limited(&vec![Json::Array(vec![marker()])]));
    assert!(is_rate_limited(&vec![Json::Array(vec![Json::Array(vec![marker()])])]));
    assert!(!is_rate_limited(&vec![Json::Array(vec![Json::Array(vec![Json::Array(vec![marker()])])])]));
    assert!(!is_rate_limited(&vec![Json::Other, Json::Text("x".to_string())]));
    assert!(!is_rate_limited(&vec![Json::Array(vec![Json::Array(vec![Json::Text(
        ".error.RATELIMIT".to_string()
    )])])]));
}

#[test]
fn answers_without_marker_go_by_their_flag() {
    let done = EditResponse::Success { jquery: vec![Json::Array(vec![Json::Other])], success: true };
    assert_eq!(classify(&done), EditOutcome::Edited);
    let failed = EditResponse::Success { jquery: Vec::new(), success: false };
    assert_eq!(classify(&failed), EditOutcome::Failed);
    assert_eq!(classify(&EditResponse::Unexpected), EditOutcome::Failed);
    assert_eq!(EditOutcome::Edited.into_result(), Ok(()));
    assert_eq!(EditOutcome::RateLimited.into_result(), Err(ShredditError::RateLimited));
    assert_eq!(EditOutcome::Failed.into_result(), Err(ShredditError::Unknown));
}

#[test]
fn comment_is_edited_then_deleted() {
    let config = Config::new("me");
    let (actions, notes, state) = run(&comment(live(true)), &config, EditOutcome::Edited, None);
    assert_eq!(
        actions,
        vec![
            Action::Edit,
            Action::Wait,
            Action::Proceed,
            Action::Delete(DeleteCall::Remove),
            Action::Wait,
            Action::Finish
        ]
    );
    assert_eq!(notes, vec![Note::Edited, Note::Deleted]);
    assert_eq!(state, ShredState::Deleted);
}

#[test]
fn rate_limited_edit_still_attempts_delete() {
    let config = Config::new("me");
    let response = EditResponse::Success { jquery: rate_limited_body(), success: false };
    let outcome = classify(&response);
    assert_eq!(outcome, EditOutcome::RateLimited);
    let (actions, notes, state) = run(&comment(live(true)), &config, outcome, None);
    assert_eq!(
        actions,
        vec![
            Action::Edit,
            Action::Wait,
            Action::Proceed,
            Action::Delete(DeleteCall::Remove),
            Action::Wait,
            Action::Finish
        ]
    );
    assert_eq!(notes, vec![Note::RateLimited, Note::Deleted]);
    assert_eq!(state, ShredState::Deleted);
}

#[test]
fn dry_run_makes_no_call_and_finishes() {
    let mut config = Config::new("me");
    config.dry_run = true;
    for thing in [comment(live(true)), post(), saved_comment(), saved_post(), friend(), upvoted()] {
        let (actions, _, state) = run(&thing, &config, EditOutcome::Edited, None);
        assert_eq!(actions, vec![Action::Proceed, Action::Finish]);
        assert_eq!(state, ShredState::NoOp);
        assert_ne!(thing.edit(&config), EditPlan::Send);
        assert_eq!(thing.delete(&config), DeletePlan::Prevented(Prevention::DryRun));
    }
    let (_, notes, _) = run(&comment(live(true)), &config, EditOutcome::Edited, None);
    assert_eq!(notes, vec![Note::DryRun, Note::Prevented(Prevention::DryRun)]);
}

#[test]
fn edit_only_edits_and_never_deletes() {
    let mut config = Config::new("me");
    config.edit_only = true;
    let (actions, notes, state) = run(&comment(exported()), &config, EditOutcome::Edited, None);
    assert_eq!(actions, vec![Action::Edit, Action::Wait, Action::Proceed, Action::Finish]);
    assert_eq!(notes, vec![Note::Edited, Note::Prevented(Prevention::EditOnly)]);
    assert_eq!(state, ShredState::NoOp);
    let (actions, _, state) = run(&post(), &config, EditOutcome::RateLimited, None);
    assert_eq!(actions, vec![Action::Edit, Action::Wait, Action::Proceed, Action::Finish]);
    assert_eq!(state, ShredState::NoOp);
    assert_eq!(post().delete(&config), DeletePlan::Prevented(Prevention::EditOnly));
    assert!(config.should_prevent_deletion());
    assert_eq!(config.prevention(true), Some(Prevention::EditOnly));
    assert_eq!(config.prevention(false), None);
    assert!(config.listing_is_partial());
    config.gdpr_export_dir = Some("/tmp/export".to_string());
    assert!(!config.listing_is_partial());
    config.dry_run = true;
    assert_eq!(config.prevention(true), Some(Prevention::DryRun));
    assert_eq!(config.prevention(false), Some(Prevention::DryRun));
    config.edit_only = false;
    assert_eq!(config.prevention(true), Some(Prevention::DryRun));
    config.dry_run = false;
    assert_eq!(config.prevention(true), None);
    assert_eq!(config.prevention(false), None);
    assert!(!config.should_prevent_deletion());
}

#[test]
fn edit_only_still_removes_what_cannot_be_edited() {
    let mut config = Config::new("me");
    config.edit_only = true;
    let expected = [
        (saved_comment(), DeleteCall::Unsave),
        (saved_post(), DeleteCall::Unsave),
        (friend(), DeleteCall::Unfriend),
        (upvoted(), DeleteCall::Unvote),
    ];
    for (thing, call) in expected {
        assert_eq!(thing.delete(&config), DeletePlan::Send(call));
        let (actions, notes, state) = run(&thing, &config, EditOutcome::Edited, None);
        assert_eq!(
            actions,
            vec![Action::Proceed, Action::Delete(call), Action::Wait, Action::Finish]
        );
        assert_eq!(notes, vec![Note::Deleted]);
        assert_eq!(state, ShredState::Deleted);
    }
    let request = friend().delete_request("tok", &config);
    assert_eq!(request.method, Method::Delete);
    assert_eq!(request.uri, "https://oauth.reddit.com/api/v1/me/friends/pal");
    config.dry_run = true;
    assert_eq!(friend().delete(&config), DeletePlan::Prevented(Prevention::DryRun));
    config.dry_run = false;
    config.max_score = Some(1);
    let exported_pal = Friend { username: "pal".to_string(), origin: Origin::Exported };
    assert_eq!(exported_pal.delete(&config), DeletePlan::Skip(SkipReason::ScoreUnavailable));
}

#[test]
fn skipped_item_is_left_alone_in_both_phases() {
    let mut config = Config::new("me");
    config.skip_subreddits = Some(SubredditSet::from("foo"));
    let (actions, notes, state) = run(&post(), &config, EditOutcome::Edited, None);
    assert_eq!(actions, vec![Action::Proceed, Action::Finish]);
    assert_eq!(
        notes,
        vec![Note::Skipped(SkipReason::SkippedSubreddit), Note::Skipped(SkipReason::SkippedSubreddit)]
    );
    assert_eq!(state, ShredState::NoOp);
    assert_eq!(post().edit(&config), EditPlan::Skip(SkipReason::SkippedSubreddit));
    assert_eq!(post().delete(&config), DeletePlan::Skip(SkipReason::SkippedSubreddit));
}

#[test]
fn each_kind_has_its_own_delete_call() {
    let config = Config::new("me");
    assert_eq!(comment(live(true)).delete(&config), DeletePlan::Send(DeleteCall::Remove));
    assert_eq!(post().delete(&config), DeletePlan::Send(DeleteCall::Remove));
    assert_eq!(saved_comment().delete(&config), DeletePlan::Send(DeleteCall::Unsave));
    assert_eq!(saved_post().delete(&config), DeletePlan::Send(DeleteCall::Unsave));
    assert_eq!(friend().delete(&config), DeletePlan::Send(DeleteCall::Unfriend));
    assert_eq!(upvoted().delete(&config), DeletePlan::Send(DeleteCall::Unvote));
    assert_eq!(comment(live(true)).edit(&config), EditPlan::Send);
    assert_eq!(post().edit(&config), EditPlan::Send);
    assert_eq!(saved_comment().edit(&config), EditPlan::NoEditPhase);
    assert_eq!(friend().edit(&config), EditPlan::NoEditPhase);
    let (actions, notes, state) = run(&friend(), &config, EditOutcome::Edited, None);
    assert_eq!(
        actions,
        vec![Action::Proceed, Action::Delete(DeleteCall::Unfriend), Action::Wait, Action::Finish]
    );
    assert_eq!(notes, vec![Note::Deleted]);
    assert_eq!(state, ShredState::Deleted);
}

#[test]
fn failed_edit_of_exported_item_looks_up_a_live_copy() {
    let config = Config::new("me");
    let thing = comment(exported());
    let (actions, notes, _) = run(&thing, &config, EditOutcome::Failed, Some(false));
    assert_eq!(
        actions,
        vec![
            Action::Edit,
            Action::Lookup,
            Action::Wait,
            Action::Proceed,
            Action::Delete(DeleteCall::Remove),
            Action::Wait,
            Action::Finish
        ]
    );
    assert_eq!(notes, vec![Note::RemovedByModerator, Note::Deleted]);
    let (_, notes, _) = run(&thing, &config, EditOutcome::Failed, Some(true));
    assert_eq!(notes, vec![Note::EditFailed, Note::Deleted]);
    let (actions, notes, state) = run(&thing, &config, EditOutcome::Failed, None);
    assert_eq!(notes, vec![Note::LookupFailed, Note::Deleted]);
    assert_eq!(actions.len(), 7);
    assert_eq!(state, ShredState::Deleted);
}

#[test]
fn failed_edit_of_live_item_is_diagnosed_at_once() {
    let config = Config::new("me");
    let (actions, notes, _) = run(&comment(live(false)), &config, EditOutcome::Failed, None);
    assert!(!actions.contains(&Action::Lookup));
    assert_eq!(notes, vec![Note::RemovedByModerator, Note::Deleted]);
    let (_, notes, _) = run(&comment(live(true)), &config, EditOutcome::Failed, None);
    assert_eq!(notes, vec![Note::EditFailed, Note::Deleted]);
}

#[test]
fn refused_delete_is_noted() {
    let config = Config::new("me");
    let thing = saved_post();
    assert_eq!(
        step(&thing, &config, ShredState::Deleting, Event::DeleteReplied(false)),
        Some(Step {
            state: ShredState::DeleteSettling,
            action: Action::Wait,
            note: Some(Note::DeleteFailed)
        })
    );
}

#[test]
fn events_out_of_place_are_refused() {
    let config = Config::new("me");
    let thing = comment(live(true));
    assert_eq!(step(&thing, &config, ShredState::Pending, Event::Slept), None);
    assert_eq!(step(&thing, &config, ShredState::Editing, Event::Begin), None);
    assert_eq!(step(&thing, &config, ShredState::Deleted, Event::Proceeded), None);
    assert_eq!(step(&thing, &config, ShredState::NoOp, Event::Begin), None);
    assert_eq!(step(&thing, &config, ShredState::Upgrading, Event::DeleteReplied(true)), None);
}

#[test]
fn edit_request_carries_name_and_replacement() {
    let mut config = Config::new("me");
    config.replacement_comment = "gone".to_string();
    let request = comment(live(true)).edit_request("tok", &config).unwrap();
    assert_eq!(request.method, Method::Post);
    assert_eq!(request.uri, "https://oauth.reddit.com/api/editusertext?raw_json=1");
    assert_eq!(request.params.len(), 2);
    assert_eq!(request.params[0].name, "thing_id");
    assert_eq!(request.params[0].value, "t1_abc");
    assert_eq!(request.params[1].name, "text");
    assert_eq!(request.params[1].value, "gone");
    assert_eq!(header_pairs(&request), signed("tok", "ShredditRustClient"));
    let request = post().edit_request("tok", &config).unwrap();
    assert_eq!(request.params[0].value, "t3_p1");
    assert!(saved_comment().edit_request("tok", &config).is_none());
    assert!(friend().edit_request("tok", &config).is_none());
}

#[test]
fn delete_requests_differ_by_kind() {
    let config = Config::new("me");
    let request = comment(live(true)).delete_request("tok", &config);
    assert_eq!(header_pairs(&request), signed("tok", "ShredditRustClient"));
    assert_eq!(request.method, Method::Post);
    assert_eq!(request.uri, "https://oauth.reddit.com/api/del");
    assert_eq!(request.params.len(), 1);
    assert_eq!(request.params[0].name, "id");
    assert_eq!(request.params[0].value, "t1_abc");
    let request = saved_post().delete_request("tok", &config);
    assert_eq!(request.uri, "https://oauth.reddit.com/api/unsave");
    assert_eq!(request.params[0].value, "t3_s2");
    let request = upvoted().delete_request("tok", &config);
    assert_eq!(request.uri, "https://oauth.reddit.com/api/vote");
    assert_eq!(request.params.len(), 2);
    assert_eq!(request.params[0].name, "id");
    assert_eq!(request.params[0].value, "t3_u1");
    assert_eq!(request.params[1].name, "dir");
    assert_eq!(request.params[1].value, "0");
    let request = friend().delete_request("other", &config);
    assert_eq!(header_pairs(&request), signed("other", "ShredditRustClient"));
    assert_eq!(request.method, Method::Delete);
    assert_eq!(request.uri, "https://oauth.reddit.com/api/v1/me/friends/pal");
    assert!(request.params.is_empty());
}

#[test]
fn lookup_request_asks_for_the_fullname() {
    let mut config = Config::new("me");
    config.user_agent = "agent/1".to_string();
    let request = comment(exported()).lookup_request("tok", &config).unwrap();
    assert_eq!(header_pairs(&request), signed("tok", "agent/1"));
    assert_eq!(request.method, Method::Get);
    assert_eq!(request.uri, "https://oauth.reddit.com/api/info.json?id=t1_abc");
    assert!(request.params.is_empty());
    assert!(friend().lookup_request("tok", &config).is_none());
    assert_eq!(bearer("tok"), "Bearer tok");
}

#[test]
fn throttle_always_pauses_for_its_interval() {
    let mut throttle = Throttle::standard();
    assert_eq!(throttle.interval_ms(), 2_000);
    assert_eq!(throttle.remaining(0), 0);
    assert_eq!(throttle.wait(10_000), 2_000);
    assert_eq!(throttle.remaining(10_000), 2_000);
    assert_eq!(throttle.remaining(11_500), 500);
    assert_eq!(throttle.remaining(12_000), 0);
    assert_eq!(throttle.remaining(50_000), 0);
    assert_eq!(throttle.wait(12_000), 2_000);
    assert_eq!(throttle.remaining(12_001), 1_999);
    let mut slow = Throttle::new(6_500);
    assert_eq!(slow.wait(u64::MAX - 10), 6_500);
    assert_eq!(slow.remaining(u64::MAX - 10), 10);
}

#[test]
fn shred_lays_out_edit_then_delete_with_pauses() {
    let config = Config::new("me");
    assert_eq!(
        shred(&comment(live(true)), &config),
        vec![Action::Edit, Action::Wait, Action::Delete(DeleteCall::Remove), Action::Wait]
    );
    assert_eq!(shred(&saved_post(), &config), vec![Action::Delete(DeleteCall::Unsave), Action::Wait]);
    let pal = Friend { username: "pal".to_string(), origin: Origin::Live };
    assert_eq!(shred(&pal, &config), vec![Action::Delete(DeleteCall::Unfriend), Action::Wait]);
    assert_eq!(pal.edit(&config), EditPlan::NoEditPhase);
    assert_eq!(pal.delete(&config), DeletePlan::Send(DeleteCall::Unfriend));
}

#[test]
fn shred_leaves_out_what_the_mode_prevents() {
    let mut config = Config::new("me");
    config.edit_only = true;
    assert_eq!(shred(&post(), &config), vec![Action::Edit, Action::Wait]);
    assert_eq!(shred(&upvoted(), &config), vec![Action::Delete(DeleteCall::Unvote), Action::Wait]);
    config.dry_run = true;
    assert!(shred(&post(), &config).is_empty());
    assert!(shred(&upvoted(), &config).is_empty());
    config.edit_only = false;
    assert!(shred(&comment(exported()), &config).is_empty());
    let mut filtered = Config::new("me");
    filtered.max_score = Some(0);
    assert!(shred(&comment(exported()), &filtered).is_empty());
    assert!(shred(&post(), &filtered).is_empty());
}

#[test]
fn run_without_failures_makes_the_planned_calls() {
    let mut config = Config::new("me");
    for edit_only in [false, true] {
        config.edit_only = edit_only;
        for thing in [comment(live(true)), post(), saved_comment(), saved_post(), friend(), upvoted()] {
            let (actions, _, _) = run(&thing, &config, EditOutcome::Edited, None);
            let calls: Vec<Action> = actions
                .into_iter()
                .filter(|a| !matches!(a, Action::Proceed | Action::Finish))
                .collect();
            assert_eq!(calls, shred(&thing, &config));
        }
    }
}

#[test]
fn transport_failure_ends_the_run() {
    let config = Config::new("me");
    let thing = comment(exported());
    let gave_up = Some(Step {
        state: ShredState::Aborted,
        action: Action::Abort,
        note: Some(Note::TransportFailed),
    });
    assert_eq!(step(&thing, &config, ShredState::Editing, Event::TransportFailed), gave_up);
    assert_eq!(step(&thing, &config, ShredState::Upgrading, Event::TransportFailed), gave_up);
    assert_eq!(step(&thing, &config, ShredState::Deleting, Event::TransportFailed), gave_up);
    assert_eq!(step(&thing, &config, ShredState::Pending, Event::TransportFailed), None);
    assert_eq!(step(&thing, &config, ShredState::EditSettling, Event::TransportFailed), None);
    assert_eq!(step(&thing, &config, ShredState::Aborted, Event::Begin), None);
    assert_eq!(step(&thing, &config, ShredState::Aborted, Event::Proceeded), None);
}

#[test]
fn preview_is_the_first_twenty_characters() {
    assert_eq!(preview("short"), "short");
    assert_eq!(preview(""), "");
    assert_eq!(preview("exactly twenty chars"), "exactly twenty chars");
    assert_eq!(preview("twenty-one characters"), "twenty-one character");
    assert_eq!(preview("äöüäöüäöüäöüäöüäöüäöüäöü"), "äöüäöüäöüäöüäöüäöüäö");
    let thing = Comment {
        id: "c".to_string(),
        body: "a body that is longer than twenty characters".to_string(),
        permalink: String::new(),
        subreddit: "foo".to_string(),
        source: exported(),
    };
    assert_eq!(thing.preview(), "a body that is longe");
    let titled = Post {
        id: "p".to_string(),
        title: "short title".to_string(),
        permalink: String::new(),
        subreddit: "foo".to_string(),
        source: exported(),
    };
    assert_eq!(titled.preview(), "short title");
}

#[test]
fn lookup_takes_the_first_listed_copy() {
    assert_eq!(first_listed(vec![7, 8, 9]), Ok(7));
    assert_eq!(first_listed(Vec::<u8>::new()), Err(ShredditError::Unknown));
    let copies = vec![
        Comment {
            id: "first".to_string(),
            body: String::new(),
            permalink: String::new(),
            subreddit: "foo".to_string(),
            source: live(false),
        },
        Comment {
            id: "second".to_string(),
            body: String::new(),
            permalink: String::new(),
            subreddit: "foo".to_string(),
            source: live(true),
        },
    ];
    let copy = Comment::to_api(copies).unwrap();
    let stale = Comment {
        id: "stale".to_string(),
        body: String::new(),
        permalink: String::new(),
        subreddit: "foo".to_string(),
        source: exported(),
    };
    assert!(matches!(Comment::to_api(vec![stale]), Err(ShredditError::Unknown)));
    let stale_post = Post {
        id: "stale".to_string(),
        title: String::new(),
        permalink: String::new(),
        subreddit: "foo".to_string(),
        source: exported(),
    };
    assert!(matches!(Post::to_api(vec![stale_post]), Err(ShredditError::Unknown)));
    assert_eq!(copy.id, "first");
    assert_eq!(copy.source, live(false));
    assert!(Comment::to_api(Vec::new()).is_err());
    assert!(Post::to_api(Vec::new()).is_err());
}

#[test]
fn lookup_reply_tells_whether_the_copy_is_editable() {
    assert_eq!(lookup_reply(Ok(live(true))), Event::LookupReplied(Some(true)));
    assert_eq!(lookup_reply(Ok(live(false))), Event::LookupReplied(Some(false)));
    assert_eq!(lookup_reply(Ok(exported())), Event::LookupReplied(None));
    assert_eq!(lookup_reply(Err(ShredditError::Unknown)), Event::LookupReplied(None));
    assert_eq!(live(true).editable(), Some(true));
    assert_eq!(exported().editable(), None);
}

#[test]
fn headers_carry_agent_and_token() {
    let plain: Vec<(String, String)> =
        headers(None, "agent/1").into_iter().map(|h| (h.name, h.value)).collect();
    assert_eq!(plain, vec![("User-Agent".to_string(), "agent/1".to_string())]);
    let with_token: Vec<(String, String)> =
        headers(Some("tok"), "agent/1").into_iter().map(|h| (h.name, h.value)).collect();
    assert_eq!(with_token, signed("tok", "agent/1"));
}
