use vstd::prelude::*;

use crate::cli::Config;
use crate::filter::{skip_reason, skips, Facts, SkipReason};
use crate::things::comment::Comment;
use crate::things::friend::Friend;
use crate::things::post::Post;
use crate::things::saved_comment::SavedComment;
use crate::things::saved_post::SavedPost;
use crate::things::upvoted::Upvoted;
use crate::things::{fullname_of, Provenance, ThingType};
use crate::time::Timestamp;

verus! {

/// One item of the user's content, of any kind.
#[derive(Debug)]
pub enum Thing {
    Comment(Comment),
    Post(Post),
    SavedComment(SavedComment),
    SavedPost(SavedPost),
    Friend(Friend),
    Upvoted(Upvoted),
}

impl Thing {
    /// What the filters read of the item.
    pub open spec fn facts(&self) -> Facts {
        match self {
            Thing::Comment(c) => c.facts(),
            Thing::Post(p) => p.facts(),
            Thing::SavedComment(c) => c.facts(),
            Thing::SavedPost(p) => p.facts(),
            Thing::Friend(f) => f.facts(),
            Thing::Upvoted(u) => u.facts(),
        }
    }

    /// The kind under which a user asks for such items.
    pub open spec fn kind_spec(&self) -> ThingType {
        match self {
            Thing::Comment(_) => ThingType::Comments,
            Thing::Post(_) => ThingType::Posts,
            Thing::SavedComment(_) => ThingType::SavedComments,
            Thing::SavedPost(_) => ThingType::SavedPosts,
            Thing::Friend(_) => ThingType::Friends,
            Thing::Upvoted(_) => ThingType::Upvoted,
        }
    }

    /// The tag of the item's kind. A friend is known by a user name alone and
    /// has none.
    pub open spec fn type_id_spec(&self) -> Option<Seq<char>> {
        match self {
            Thing::Comment(_) => Some("t1"@),
            Thing::Post(_) => Some("t3"@),
            Thing::SavedComment(_) => Some("t1"@),
            Thing::SavedPost(_) => Some("t3"@),
            Thing::Friend(_) => None,
            Thing::Upvoted(u) => Some(u.type_id@),
        }
    }

    /// The id by which the service knows the item within its kind; for a
    /// friend, the user name.
    pub open spec fn id_spec(&self) -> Seq<char> {
        match self {
            Thing::Comment(c) => c.id@,
            Thing::Post(p) => p.id@,
            Thing::SavedComment(c) => c.id@,
            Thing::SavedPost(p) => p.id@,
            Thing::Friend(f) => f.username@,
            Thing::Upvoted(u) => u.id@,
        }
    }

    /// The item's name across all kinds: the tag of its kind, an underscore
    /// and its id. A friend has none.
    pub open spec fn fullname_spec(&self) -> Option<Seq<char>> {
        match self.type_id_spec() {
            Some(tag) => Some(fullname_of(tag, self.id_spec())),
            None => None,
        }
    }

    /// What a comment or a post carries by where it came from. The other
    /// kinds carry nothing of it.
    pub open spec fn provenance_spec(&self) -> Option<Provenance> {
        match self {
            Thing::Comment(c) => Some(c.source),
            Thing::Post(p) => Some(p.source),
            _ => None,
        }
    }

    /// Whether items of this kind have their text replaced before they are
    /// removed: comments and posts.
    pub open spec fn has_edit_phase(&self) -> bool {
        self is Comment || self is Post
    }

    /// The kind under which a user asks for such items.
    pub fn kind(&self) -> (r: ThingType)
        ensures
            r == self.kind_spec(),
    {
        match self {
            Thing::Comment(_) => ThingType::Comments,
            Thing::Post(_) => ThingType::Posts,
            Thing::SavedComment(_) => ThingType::SavedComments,
            Thing::SavedPost(_) => ThingType::SavedPosts,
            Thing::Friend(_) => ThingType::Friends,
            Thing::Upvoted(_) => ThingType::Upvoted,
        }
    }

    /// The tag of the item's kind, if it has one.
    pub fn type_id(&self) -> (r: Option<&str>)
        ensures
            match r {
                Some(tag) => self.type_id_spec() == Some(tag@),
                None => self.type_id_spec().is_none(),
            },
    {
        match self {
            Thing::Comment(_) => Some("t1"),
            Thing::Post(_) => Some("t3"),
            Thing::SavedComment(_) => Some("t1"),
            Thing::SavedPost(_) => Some("t3"),
            Thing::Friend(_) => None,
            Thing::Upvoted(u) => Some(u.type_id.as_str()),
        }
    }

    /// The item's name across all kinds, if it has one.
    pub fn fullname(&self) -> (r: Option<String>)
        ensures
            match r {
                Some(name) => self.fullname_spec() == Some(name@),
                None => self.fullname_spec().is_none(),
            },
    {
        match self {
            Thing::Comment(c) => Some(c.fullname()),
            Thing::Post(p) => Some(p.fullname()),
            Thing::SavedComment(c) => Some(c.fullname()),
            Thing::SavedPost(p) => Some(p.fullname()),
            Thing::Friend(_) => None,
            Thing::Upvoted(u) => Some(u.fullname()),
        }
    }

    /// What a comment or a post carries by where it came from.
    pub fn provenance(&self) -> (r: Option<Provenance>)
        ensures
            r == self.provenance_spec(),
    {
        match self {
            Thing::Comment(c) => Some(c.source),
            Thing::Post(p) => Some(p.source),
            _ => None,
        }
    }

    /// When the item was created, where it carries the date: comments and
    /// posts do.
    pub fn created(&self) -> (r: Option<Timestamp>)
        ensures
            r == self.facts().created_at,
    {
        match self {
            Thing::Comment(c) => Some(c.created()),
            Thing::Post(p) => Some(p.created()),
            _ => None,
        }
    }

    /// The item's score, where it carries one: live comments and posts do.
    pub fn score(&self) -> (r: Option<i64>)
        ensures
            r == self.facts().score,
    {
        match self {
            Thing::Comment(c) => c.source.score(),
            Thing::Post(p) => p.source.score(),
            _ => None,
        }
    }

    /// The first rule that keeps the item from being touched, if any.
    pub fn skip_reason(&self, config: &Config) -> (r: Option<SkipReason>)
        ensures
            r == skip_reason(self.facts(), config),
    {
        match self {
            Thing::Comment(c) => c.skip_reason(config),
            Thing::Post(p) => p.skip_reason(config),
            Thing::SavedComment(c) => c.skip_reason(config),
            Thing::SavedPost(p) => p.skip_reason(config),
            Thing::Friend(f) => f.skip_reason(config),
            Thing::Upvoted(u) => u.skip_reason(config),
        }
    }

    /// Whether the filters keep the item from being touched.
    pub fn should_skip(&self, config: &Config) -> (r: bool)
        ensures
            r == skips(self.facts(), config),
    {
        self.skip_reason(config).is_some()
    }
}

} // verus!
