use vstd::prelude::*;

use crate::cli::Config;
use crate::filter::{evaluate, skip_reason, skips, Facts, IdKind, SkipReason};
use crate::things::{fullname_of, make_fullname, reversed, Origin};

verus! {

/// Where an upvoted item came from. Only a live one tells its subreddit.
#[derive(Debug)]
pub enum UpvotedSource {
    Live { subreddit: String },
    Exported,
}

/// A post or comment that the user voted up.
#[derive(Debug)]
pub struct Upvoted {
    pub id: String,
    pub permalink: String,
    pub source: UpvotedSource,
    /// The tag of the item's kind, as the listing gave it.
    pub type_id: String,
}

/// One entry of a page of upvoted items: the item and the tag of its kind.
#[derive(Debug)]
pub struct UpvotedData {
    pub data: Upvoted,
    pub kind: String,
}

/// One page of upvoted items, in the order of the listing.
#[derive(Debug)]
pub struct UpvotedResData {
    pub children: Vec<UpvotedData>,
}

/// One row of the export's table of votes.
#[derive(Debug)]
pub struct Vote {
    pub id: String,
    pub permalink: String,
    pub direction: String,
}

impl UpvotedData {
    /// The item, with the entry's tag as the tag of its kind.
    pub fn with_type(self) -> (r: Upvoted)
        ensures
            r.id == self.data.id,
            r.permalink == self.data.permalink,
            r.source == self.data.source,
            r.type_id == self.kind,
    {
        let UpvotedData { data, kind } = self;
        Upvoted { id: data.id, permalink: data.permalink, source: data.source, type_id: kind }
    }
}

impl UpvotedResData {
    /// The items of the page, in the order of the listing, each with the tag
    /// of its entry as the tag of its kind.
    pub fn into_items(self) -> (r: Vec<Upvoted>)
        ensures
            r@.len() == self.children@.len(),
            forall|i: int|
                0 <= i < r@.len() ==> {
                    &&& (#[trigger] r@[i]).id == self.children@[i].data.id
                    &&& r@[i].permalink == self.children@[i].data.permalink
                    &&& r@[i].source == self.children@[i].data.source
                    &&& r@[i].type_id == self.children@[i].kind
                },
    {
        let mut items: Vec<Upvoted> = Vec::new();
        let ghost all = self.children@;
        let mut rest = reversed(self.children);
        while rest.len() > 0
            invariant
                items@.len() + rest@.len() == all.len(),
                forall|k: int| 0 <= k < rest@.len() ==> rest@[k] == all[all.len() - 1 - k],
                forall|i: int|
                    0 <= i < items@.len() ==> {
                        &&& (#[trigger] items@[i]).id == all[i].data.id
                        &&& items@[i].permalink == all[i].data.permalink
                        &&& items@[i].source == all[i].data.source
                        &&& items@[i].type_id == all[i].kind
                    },
            decreases rest.len(),
        {
            let entry = rest.pop().unwrap();
            items.push(entry.with_type());
        }
        items
    }
}

impl Vote {
    /// Whether the vote is a vote up.
    pub open spec fn is_up(&self) -> bool {
        self.direction@ == "up"@
    }

    /// The voted item as an exported upvoted item of the given kind.
    pub fn into_upvoted(self, type_id: String) -> (r: Upvoted)
        ensures
            r.id == self.id,
            r.permalink == self.permalink,
            r.source == UpvotedSource::Exported,
            r.type_id == type_id,
    {
        Upvoted { id: self.id, permalink: self.permalink, source: UpvotedSource::Exported, type_id }
    }
}

impl Upvoted {
    /// The tag of the kind `post`, which the export's votes are about.
    pub const TYPE_ID: &'static str = "t3";

    pub open spec fn origin_spec(&self) -> Origin {
        match self.source {
            UpvotedSource::Live { .. } => Origin::Live,
            UpvotedSource::Exported => Origin::Exported,
        }
    }

    pub open spec fn subreddit_spec(&self) -> Option<Seq<char>> {
        match self.source {
            UpvotedSource::Live { subreddit } => Some(subreddit@),
            UpvotedSource::Exported => None,
        }
    }

    /// What the filters read of the upvoted item. Its id is looked up among
    /// the ids of comments.
    pub open spec fn facts(&self) -> Facts {
        Facts {
            id: self.id@,
            id_kind: IdKind::Comment,
            subreddit: self.subreddit_spec(),
            created_at: None,
            origin: self.origin_spec(),
            score: None,
        }
    }

    /// Where the item came from.
    pub fn origin(&self) -> (r: Origin)
        ensures
            r == self.origin_spec(),
    {
        match &self.source {
            UpvotedSource::Live { .. } => Origin::Live,
            UpvotedSource::Exported => Origin::Exported,
        }
    }

    /// The item's name across all kinds.
    pub fn fullname(&self) -> (r: String)
        ensures
            r@ == fullname_of(self.type_id@, self.id@),
    {
        make_fullname(self.type_id.as_str(), self.id.as_str())
    }

    /// The item's subreddit, which only a live item tells.
    pub fn subreddit(&self) -> (r: Option<&str>)
        ensures
            match r {
                Some(name) => self.subreddit_spec() == Some(name@),
                None => self.subreddit_spec().is_none(),
            },
    {
        match &self.source {
            UpvotedSource::Live { subreddit } => Some(subreddit.as_str()),
            UpvotedSource::Exported => None,
        }
    }

    /// The first rule that keeps the item from being touched, if any.
    pub fn skip_reason(&self, config: &Config) -> (r: Option<SkipReason>)
        ensures
            r == skip_reason(self.facts(), config),
    {
        evaluate(
            self.id.as_str(),
            IdKind::Comment,
            self.subreddit(),
            None,
            self.origin(),
            None,
            config,
        )
    }

    /// Whether the filters keep the item from being touched.
    pub fn should_skip(&self, config: &Config) -> (r: bool)
        ensures
            r == skips(self.facts(), config),
    {
        self.skip_reason(config).is_some()
    }
}

} // verus!
