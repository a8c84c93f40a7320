use vstd::prelude::*;

use crate::cli::Config;
use crate::filter::{evaluate, skip_reason, skips, Facts, IdKind, SkipReason};
use crate::things::Origin;

verus! {

/// An account that the user befriended.
#[derive(Debug)]
pub struct Friend {
    pub username: String,
    pub origin: Origin,
}

impl Friend {
    /// What the filters read of the friend: a friend has no subreddit, no
    /// date and no score, and no id set speaks of it.
    pub open spec fn facts(&self) -> Facts {
        Facts {
            id: self.username@,
            id_kind: IdKind::Neither,
            subreddit: None,
            created_at: None,
            origin: self.origin,
            score: None,
        }
    }

    /// The first rule that keeps the friend from being touched, if any.
    pub fn skip_reason(&self, config: &Config) -> (r: Option<SkipReason>)
        ensures
            r == skip_reason(self.facts(), config),
    {
        evaluate(self.username.as_str(), IdKind::Neither, None, None, self.origin, None, config)
    }

    /// Whether the filters keep the friend from being touched.
    pub fn should_skip(&self, config: &Config) -> (r: bool)
        ensures
            r == skips(self.facts(), config),
    {
        self.skip_reason(config).is_some()
    }
}

} // verus!
