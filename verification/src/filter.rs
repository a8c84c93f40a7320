use vstd::prelude::*;

use crate::cli::Config;
use crate::things::subreddit_set::SubredditSet;
use crate::things::Origin;
use crate::time::Timestamp;

verus! {

/// Which of the configured id sets speaks of an item.
#[derive(Clone, Copy, Debug, PartialEq, Eq, Structural)]
pub enum IdKind {
    /// The ids of comments.
    Comment,
    /// The ids of posts.
    Post,
    /// No id set speaks of the item.
    Neither,
}

/// What the filters read of an item.
pub struct Facts {
    pub id: Seq<char>,
    pub id_kind: IdKind,
    /// The subreddit, where the item has one.
    pub subreddit: Option<Seq<char>>,
    /// The instant of creation, where the item carries it.
    pub created_at: Option<Timestamp>,
    pub origin: Origin,
    /// The score, which only live comments and posts carry.
    pub score: Option<i64>,
}

/// The rule that made the filters skip an item.
#[derive(Clone, Copy, Debug, PartialEq, Eq, Structural)]
pub enum SkipReason {
    /// The id is among the ids to skip.
    SkippedId,
    /// The subreddit is among the subreddits to skip.
    SkippedSubreddit,
    /// The item was created at the `before` bound or after it.
    TooNew,
    /// The subreddit is not among the only subreddits to touch.
    OtherSubreddit,
    /// The score is above the highest score to touch.
    ScoreTooHigh,
    /// A highest score is configured, and exported data carries no score.
    ScoreUnavailable,
    /// The item was created at the `after` bound or before it.
    TooOld,
}

impl SkipReason {
    /// Whether the skip is reported as an error: the configuration asks for
    /// a filter that the item's data cannot answer.
    pub fn is_error(self) -> (r: bool)
        ensures
            r == (self == SkipReason::ScoreUnavailable),
    {
        match self {
            SkipReason::ScoreUnavailable => true,
            _ => false,
        }
    }
}

/// Whether a set is configured and holds the name.
pub open spec fn holds(set: Option<SubredditSet>, name: Seq<char>) -> bool {
    match set {
        Some(s) => s@.contains(name),
        None => false,
    }
}

/// Whether a set is configured and lacks the name.
pub open spec fn lacks(set: Option<SubredditSet>, name: Seq<char>) -> bool {
    match set {
        Some(s) => !s@.contains(name),
        None => false,
    }
}

/// Rule: the id is in the id set of the item's kind.
pub open spec fn id_rule(f: Facts, c: &Config) -> bool {
    match f.id_kind {
        IdKind::Comment => holds(c.skip_comment_ids, f.id),
        IdKind::Post => holds(c.skip_post_ids, f.id),
        IdKind::Neither => false,
    }
}

/// Rule: the subreddit is in `skip_subreddits`.
pub open spec fn skip_subreddit_rule(f: Facts, c: &Config) -> bool {
    match f.subreddit {
        Some(name) => holds(c.skip_subreddits, name),
        None => false,
    }
}

/// Rule: the item was created at `before` or later.
pub open spec fn before_rule(f: Facts, c: &Config) -> bool {
    match (f.created_at, c.before) {
        (Some(created), Some(bound)) => bound.le(&created),
        _ => false,
    }
}

/// Rule: the subreddit is not in `only_subreddits`.
pub open spec fn only_subreddit_rule(f: Facts, c: &Config) -> bool {
    match f.subreddit {
        Some(name) => lacks(c.only_subreddits, name),
        None => false,
    }
}

/// Rule: the score of a live item is above `max_score`.
pub open spec fn score_rule(f: Facts, c: &Config) -> bool {
    match (f.origin, f.score, c.max_score) {
        (Origin::Live, Some(score), Some(max)) => score > max,
        _ => false,
    }
}

/// Rule: `max_score` is configured and the item is exported, so that its
/// score cannot be known.
pub open spec fn score_unavailable_rule(f: Facts, c: &Config) -> bool {
    f.origin == Origin::Exported && c.max_score.is_some()
}

/// Rule: the item was created at `after` or earlier.
pub open spec fn after_rule(f: Facts, c: &Config) -> bool {
    match (f.created_at, c.after) {
        (Some(created), Some(bound)) => created.le(&bound),
        _ => false,
    }
}

/// Whether any rule matches the item.
pub open spec fn any_rule(f: Facts, c: &Config) -> bool {
    ||| id_rule(f, c)
    ||| skip_subreddit_rule(f, c)
    ||| before_rule(f, c)
    ||| only_subreddit_rule(f, c)
    ||| score_rule(f, c)
    ||| score_unavailable_rule(f, c)
    ||| after_rule(f, c)
}

/// The first rule that matches the item, in the order in which the rules are
/// tried; `None` where the item is kept.
pub open spec fn skip_reason(f: Facts, c: &Config) -> Option<SkipReason> {
    if id_rule(f, c) {
        Some(SkipReason::SkippedId)
    } else if skip_subreddit_rule(f, c) {
        Some(SkipReason::SkippedSubreddit)
    } else if before_rule(f, c) {
        Some(SkipReason::TooNew)
    } else if only_subreddit_rule(f, c) {
        Some(SkipReason::OtherSubreddit)
    } else if score_rule(f, c) {
        Some(SkipReason::ScoreTooHigh)
    } else if score_unavailable_rule(f, c) {
        Some(SkipReason::ScoreUnavailable)
    } else if after_rule(f, c) {
        Some(SkipReason::TooOld)
    } else {
        None
    }
}

/// Whether the filters skip the item.
pub open spec fn skips(f: Facts, c: &Config) -> bool {
    skip_reason(f, c).is_some()
}

/// Whether no filter is configured at all.
pub open spec fn no_rule_configured(c: &Config) -> bool {
    &&& c.skip_comment_ids.is_none()
    &&& c.skip_post_ids.is_none()
    &&& c.skip_subreddits.is_none()
    &&& c.only_subreddits.is_none()
    &&& c.before.is_none()
    &&& c.after.is_none()
    &&& c.max_score.is_none()
}

fn set_holds(set: &Option<SubredditSet>, name: &str) -> (r: bool)
    ensures
        r == holds(*set, name@),
{
    match set {
        Some(s) => s.contains(name),
        None => false,
    }
}

/// Tries the rules on one item, in their fixed order, and returns the first
/// that matches.
pub fn evaluate(
    id: &str,
    id_kind: IdKind,
    subreddit: Option<&str>,
    created_at: Option<Timestamp>,
    origin: Origin,
    score: Option<i64>,
    config: &Config,
) -> (r: Option<SkipReason>)
    ensures
        r == skip_reason(
            Facts {
                id: id@,
                id_kind,
                subreddit: match subreddit {
                    Some(name) => Some(name@),
                    None => None,
                },
                created_at,
                origin,
                score,
            },
            config,
        ),
{
    let id_hit = match id_kind {
        IdKind::Comment => set_holds(&config.skip_comment_ids, id),
        IdKind::Post => set_holds(&config.skip_post_ids, id),
        IdKind::Neither => false,
    };
    if id_hit {
        return Some(SkipReason::SkippedId);
    }
    if let Some(name) = subreddit {
        if set_holds(&config.skip_subreddits, name) {
            return Some(SkipReason::SkippedSubreddit);
        }
    }
    if let Some(created) = created_at {
        if let Some(bound) = config.before {
            if created.at_or_after(&bound) {
                return Some(SkipReason::TooNew);
            }
        }
    }
    if let Some(name) = subreddit {
        if let Some(only) = &config.only_subreddits {
            if !only.contains(name) {
                return Some(SkipReason::OtherSubreddit);
            }
        }
    }
    match origin {
        Origin::Live => {
            if let Some(value) = score {
                if let Some(max) = config.max_score {
                    if value > max {
                        return Some(SkipReason::ScoreTooHigh);
                    }
                }
            }
        },
        Origin::Exported => {
            if config.max_score.is_some() {
                return Some(SkipReason::ScoreUnavailable);
            }
        },
    }
    if let Some(created) = created_at {
        if let Some(bound) = config.after {
            if created.at_or_before(&bound) {
                return Some(SkipReason::TooOld);
            }
        }
    }
    None
}

/// An item is skipped if and only if at least one rule matches it.
pub proof fn lemma_skipped_iff_some_rule(f: Facts, c: &Config)
    ensures
        skips(f, c) <==> any_rule(f, c),
{
}

/// With no filter configured every item is kept.
pub proof fn lemma_nothing_configured_keeps_all(f: Facts, c: &Config)
    requires
        no_rule_configured(c),
    ensures
        !skips(f, c),
{
}

/// With a highest score configured every exported item is skipped, whatever
/// the other filters say, and where no earlier rule matches the skip is
/// reported as an error.
pub proof fn lemma_exported_skipped_under_max_score(f: Facts, c: &Config)
    requires
        f.origin == Origin::Exported,
        c.max_score.is_some(),
    ensures
        skips(f, c),
        !id_rule(f, c) && !skip_subreddit_rule(f, c) && !before_rule(f, c) && !only_subreddit_rule(
            f,
            c,
        ) ==> skip_reason(f, c) == Some(SkipReason::ScoreUnavailable),
{
}

/// With a highest score as the only filter, every exported item is skipped
/// with the error that its score is not available.
pub proof fn lemma_max_score_alone_reports_error(f: Facts, c: &Config)
    requires
        f.origin == Origin::Exported,
        c.max_score.is_some(),
        c.skip_comment_ids.is_none(),
        c.skip_post_ids.is_none(),
        c.skip_subreddits.is_none(),
        c.only_subreddits.is_none(),
        c.before.is_none(),
        c.after.is_none(),
    ensures
        skip_reason(f, c) == Some(SkipReason::ScoreUnavailable),
{
}

/// The `before` bound is exclusive on the side that is kept: an item created
/// exactly at the bound is skipped.
pub proof fn lemma_created_at_bound_is_skipped(f: Facts, c: &Config)
    requires
        c.before.is_some(),
        f.created_at == c.before,
    ensures
        before_rule(f, c),
        skips(f, c),
{
}

} // verus!
