use vstd::prelude::*;

use crate::cli::Config;
use crate::filter::{evaluate, skip_reason, skips, Facts, IdKind, SkipReason};
use crate::things::{fullname_of, make_fullname, reversed, Origin};

verus! {

/// A comment that the user saved.
#[derive(Debug)]
pub struct SavedComment {
    pub id: String,
    pub subreddit: String,
    pub permalink: String,
    pub origin: Origin,
}

/// One entry of a page of saved comments: the comment and the tag of its kind.
#[derive(Debug)]
pub struct SavedCommentData {
    pub data: SavedComment,
    pub kind: String,
}

/// One page of saved comments, in the order of the listing.
#[derive(Debug)]
pub struct SavedCommentResData {
    pub children: Vec<SavedCommentData>,
}

impl SavedComment {
    /// The tag of the kind `comment`.
    pub const TYPE_ID: &'static str = "t1";

    /// What the filters read of the saved comment.
    pub open spec fn facts(&self) -> Facts {
        Facts {
            id: self.id@,
            id_kind: IdKind::Comment,
            subreddit: Some(self.subreddit@),
            created_at: None,
            origin: self.origin,
            score: None,
        }
    }

    /// The saved comment's name across all kinds.
    pub fn fullname(&self) -> (r: String)
        ensures
            r@ == fullname_of("t1"@, self.id@),
    {
        make_fullname("t1", self.id.as_str())
    }

    /// The first rule that keeps the saved comment from being touched, if any.
    pub fn skip_reason(&self, config: &Config) -> (r: Option<SkipReason>)
        ensures
            r == skip_reason(self.facts(), config),
    {
        evaluate(
            self.id.as_str(),
            IdKind::Comment,
            Some(self.subreddit.as_str()),
            None,
            self.origin,
            None,
            config,
        )
    }

    /// Whether the filters keep the saved comment from being touched.
    pub fn should_skip(&self, config: &Config) -> (r: bool)
        ensures
            r == skips(self.facts(), config),
    {
        self.skip_reason(config).is_some()
    }
}

impl SavedCommentResData {
    /// The comments of the page, in the order of the listing.
    pub fn into_items(self) -> (r: Vec<SavedComment>)
        ensures
            r@ == self.children@.map_values(|c: SavedCommentData| c.data),
    {
        let mut items: Vec<SavedComment> = Vec::new();
        let ghost all = self.children@;
        let mut rest = reversed(self.children);
        while rest.len() > 0
            invariant
                items@.len() + rest@.len() == all.len(),
                items@ == all.subrange(0, items@.len() as int).map_values(|c: SavedCommentData| c.data),
                forall|k: int| 0 <= k < rest@.len() ==> rest@[k] == all[all.len() - 1 - k],
            decreases rest.len(),
        {
            let ghost n = items@.len() as int;
            let entry = rest.pop().unwrap();
            items.push(entry.data);
            assert(items@ =~= all.subrange(0, n + 1).map_values(|c: SavedCommentData| c.data));
        }
        assert(all.subrange(0, all.len() as int) =~= all);
        items
    }
}

} // verus!
