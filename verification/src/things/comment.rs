use vstd::prelude::*;

use crate::cli::Config;
use crate::filter::{evaluate, skip_reason, skips, Facts, IdKind, SkipReason};
use crate::things::{
    first_listed, fullname_of, make_fullname, preview, preview_of, reversed, Provenance,
    ShredditError,
};
use crate::time::Timestamp;

verus! {

/// A comment of the user.
#[derive(Debug)]
pub struct Comment {
    pub id: String,
    pub body: String,
    pub permalink: String,
    pub subreddit: String,
    pub source: Provenance,
}

/// One entry of a page of comments.
#[derive(Debug)]
pub struct Child {
    pub data: Comment,
}

/// One page of comments, in the order of the listing, with the cursors that
/// the service names for the pages next to it.
#[derive(Debug)]
pub struct ResponseData {
    pub children: Vec<Child>,
    pub after: Option<String>,
    pub before: Option<String>,
}

impl ResponseData {
    /// The comments of the page, in the order of the listing.
    pub fn into_items(self) -> (r: Vec<Comment>)
        ensures
            r@ == self.children@.map_values(|c: Child| c.data),
    {
        let mut items: Vec<Comment> = Vec::new();
        let ghost all = self.children@;
        let mut rest = reversed(self.children);
        while rest.len() > 0
            invariant
                items@.len() + rest@.len() == all.len(),
                items@ == all.subrange(0, items@.len() as int).map_values(|c: Child| c.data),
                forall|k: int| 0 <= k < rest@.len() ==> rest@[k] == all[all.len() - 1 - k],
            decreases rest.len(),
        {
            let ghost n = items@.len() as int;
            let entry = rest.pop().unwrap();
            items.push(entry.data);
            assert(items@ =~= all.subrange(0, n + 1).map_values(|c: Child| c.data));
        }
        assert(all.subrange(0, all.len() as int) =~= all);
        items
    }
}

impl Comment {
    /// The tag of the kind `comment`.
    pub const TYPE_ID: &'static str = "t1";

    /// What the filters read of the comment.
    pub open spec fn facts(&self) -> Facts {
        Facts {
            id: self.id@,
            id_kind: IdKind::Comment,
            subreddit: Some(self.subreddit@),
            created_at: Some(self.source.created_spec()),
            origin: self.source.origin_spec(),
            score: self.source.score_spec(),
        }
    }

    /// When the comment was written.
    pub fn created(&self) -> (r: Timestamp)
        ensures
            r == self.source.created_spec(),
    {
        self.source.created()
    }

    /// The start of the comment's text, for naming it to the user.
    pub fn preview(&self) -> (r: &str)
        ensures
            r@ == preview_of(self.body@),
    {
        preview(self.body.as_str())
    }

    /// The comment's name across all kinds.
    pub fn fullname(&self) -> (r: String)
        ensures
            r@ == fullname_of("t1"@, self.id@),
    {
        make_fullname("t1", self.id.as_str())
    }

    /// The fresh copy of a comment that a lookup by its name brought: the first
    /// item that the service listed, which has to be a live one. An answer
    /// that lists nothing is an error, and so is one whose first item is not
    /// live. The comment that was looked up stays as it is.
    pub fn to_api(found: Vec<Comment>) -> (r: Result<Comment, ShredditError>)
        ensures
            match r {
                Ok(copy) => found@.len() > 0 && copy == found@[0] && copy.source is Live,
                Err(e) => (found@.len() == 0 || !(found@[0].source is Live)) && e
                    == ShredditError::Unknown,
            },
    {
        match first_listed(found) {
            Ok(copy) => match copy.source {
                Provenance::Live { .. } => Ok(copy),
                Provenance::Exported { .. } => Err(ShredditError::Unknown),
            },
            Err(e) => Err(e),
        }
    }

    /// The first rule that keeps the comment from being touched, if any.
    pub fn skip_reason(&self, config: &Config) -> (r: Option<SkipReason>)
        ensures
            r == skip_reason(self.facts(), config),
    {
        evaluate(
            self.id.as_str(),
            IdKind::Comment,
            Some(self.subreddit.as_str()),
            Some(self.source.created()),
            self.source.origin(),
            self.source.score(),
            config,
        )
    }

    /// Whether the filters keep the comment from being touched.
    pub fn should_skip(&self, config: &Config) -> (r: bool)
        ensures
            r == skips(self.facts(), config),
    {
        self.skip_reason(config).is_some()
    }
}

} // verus!
