use vstd::prelude::*;
use vstd::string::*;

pub mod comment;
pub mod friend;
pub mod post;
pub mod saved_comment;
pub mod saved_post;
pub mod subreddit_set;
pub mod thing;
pub mod upvoted;

use crate::time::Timestamp;

verus! {

/// The text that replaces an edited comment or post unless the user gives
/// another one.
pub const LOREM_IPSUM: &'static str =
    "Lorem ipsum dolor sit amet, consectetur adipiscing elit, sed do eiusmod tempor incididunt ut labore et dolore magna aliqua. Ut enim ad minim veniam, quis nostrud exercitation ullamco laboris nisi ut aliquip ex ea commodo consequat. Duis aute irure dolor in reprehenderit in voluptate velit esse cillum dolore eu fugiat nulla pariatur. Excepteur sint occaecat cupidatat non proident, sunt in culpa qui officia deserunt mollit anim id est laborum.";

/// Why a step of the work failed.
#[derive(Clone, Copy, Debug, PartialEq, Eq, Structural)]
pub enum ShredditError {
    /// The service answered that too many calls were made.
    RateLimited,
    /// Any other failure.
    Unknown,
}

/// The kinds of things that a user can ask to have shredded.
#[derive(Clone, Copy, Debug, PartialEq, Eq, Structural)]
pub enum ThingType {
    Posts,
    Comments,
    Friends,
    SavedPosts,
    SavedComments,
    Upvoted,
}

/// Where an item's data came from.
#[derive(Clone, Copy, Debug, PartialEq, Eq, Structural)]
pub enum Origin {
    /// From the service's paginated listings.
    Live,
    /// From a static export of the user's data.
    Exported,
}

/// What an item carries besides its text, by where it came from. A live item
/// has its score and tells whether it can still be edited; an exported item
/// has neither.
#[derive(Clone, Copy, Debug, PartialEq, Eq, Structural)]
pub enum Provenance {
    Live { score: i64, created_at: Timestamp, editable: bool },
    Exported { created_at: Timestamp },
}

impl Provenance {
    pub open spec fn origin_spec(self) -> Origin {
        match self {
            Provenance::Live { .. } => Origin::Live,
            Provenance::Exported { .. } => Origin::Exported,
        }
    }

    pub open spec fn created_spec(self) -> Timestamp {
        match self {
            Provenance::Live { created_at, .. } => created_at,
            Provenance::Exported { created_at } => created_at,
        }
    }

    pub open spec fn score_spec(self) -> Option<i64> {
        match self {
            Provenance::Live { score, .. } => Some(score),
            Provenance::Exported { .. } => None,
        }
    }

    /// Whether the item can still be edited, which only a live item tells.
    pub open spec fn editable_spec(self) -> Option<bool> {
        match self {
            Provenance::Live { editable, .. } => Some(editable),
            Provenance::Exported { .. } => None,
        }
    }

    /// Whether the item can still be edited, which only a live item tells.
    pub fn editable(&self) -> (r: Option<bool>)
        ensures
            r == self.editable_spec(),
    {
        match self {
            Provenance::Live { editable, .. } => Some(*editable),
            Provenance::Exported { .. } => None,
        }
    }

    /// Where the item came from.
    pub fn origin(&self) -> (r: Origin)
        ensures
            r == self.origin_spec(),
    {
        match self {
            Provenance::Live { .. } => Origin::Live,
            Provenance::Exported { .. } => Origin::Exported,
        }
    }

    /// When the item was created.
    pub fn created(&self) -> (r: Timestamp)
        ensures
            r == self.created_spec(),
    {
        match self {
            Provenance::Live { created_at, .. } => *created_at,
            Provenance::Exported { created_at } => *created_at,
        }
    }

    /// The item's score, which only a live item has.
    pub fn score(&self) -> (r: Option<i64>)
        ensures
            r == self.score_spec(),
    {
        match self {
            Provenance::Live { score, .. } => Some(*score),
            Provenance::Exported { .. } => None,
        }
    }
}

/// The name that the service gives an object across all kinds: the tag of its
/// kind, an underscore and its id.
pub open spec fn fullname_of(type_id: Seq<char>, id: Seq<char>) -> Seq<char> {
    type_id + "_"@ + id
}

/// Builds the name that the service gives an object across all kinds.
pub fn make_fullname(type_id: &str, id: &str) -> (r: String)
    ensures
        r@ == fullname_of(type_id@, id@),
{
    let mut name = String::from_str(type_id);
    name.append("_");
    name.append(id);
    name
}

/// The start of a text that is shown where an item is named to the user: its
/// first twenty characters, or all of it where it is shorter.
pub open spec fn preview_of(text: Seq<char>) -> Seq<char> {
    if text.len() > 20 {
        text.subrange(0, 20)
    } else {
        text
    }
}

/// The start of a text that is shown where an item is named to the user.
pub fn preview(text: &str) -> (r: &str)
    ensures
        r@ == preview_of(text@),
{
    if text.unicode_len() > 20 {
        text.substring_char(0, 20)
    } else {
        text
    }
}

/// Picks the live copy out of the answer to a lookup: the first item that the
/// service listed. An answer that lists nothing is an error.
pub fn first_listed<T>(found: Vec<T>) -> (r: Result<T, ShredditError>)
    ensures
        match r {
            Ok(copy) => found@.len() > 0 && copy == found@[0],
            Err(e) => found@.len() == 0 && e == ShredditError::Unknown,
        },
{
    let mut rest = reversed(found);
    match rest.pop() {
        Some(copy) => Ok(copy),
        None => Err(ShredditError::Unknown),
    }
}

/// The items of `v` from the last to the first.
pub fn reversed<T>(v: Vec<T>) -> (r: Vec<T>)
    ensures
        r@.len() == v@.len(),
        forall|k: int| 0 <= k < r@.len() ==> r@[k] == v@[v@.len() - 1 - k],
{
    let mut rest = v;
    let mut out: Vec<T> = Vec::new();
    while rest.len() > 0
        invariant
            out@.len() + rest@.len() == v@.len(),
            rest@ == v@.subrange(0, rest@.len() as int),
            forall|k: int| 0 <= k < out@.len() ==> out@[k] == v@[v@.len() - 1 - k],
        decreases rest.len(),
    {
        let item = rest.pop().unwrap();
        out.push(item);
    }
    out
}

/// Whether two texts are the same.
pub fn same_text(a: &str, b: &str) -> (r: bool)
    ensures
        r == (a@ == b@),
{
    a.to_owned() == b.to_owned()
}

impl ThingType {
    /// The kind that a name stands for, if it is the name of a kind.
    pub open spec fn named(s: Seq<char>) -> Option<ThingType> {
        if s == "posts"@ {
            Some(ThingType::Posts)
        } else if s == "comments"@ {
            Some(ThingType::Comments)
        } else if s == "friends"@ {
            Some(ThingType::Friends)
        } else if s == "saved-posts"@ {
            Some(ThingType::SavedPosts)
        } else if s == "saved-comments"@ {
            Some(ThingType::SavedComments)
        } else if s == "upvoted"@ {
            Some(ThingType::Upvoted)
        } else {
            None
        }
    }

    /// Reads the name of a kind. Any other text is refused with the message
    /// `Invalid type`.
    pub fn from_str(s: &str) -> (r: Result<ThingType, &'static str>)
        ensures
            match r {
                Ok(t) => ThingType::named(s@) == Some(t),
                Err(e) => ThingType::named(s@).is_none() && e@ == "Invalid type"@,
            },
    {
        if same_text(s, "posts") {
            Ok(ThingType::Posts)
        } else if same_text(s, "comments") {
            Ok(ThingType::Comments)
        } else if same_text(s, "friends") {
            Ok(ThingType::Friends)
        } else if same_text(s, "saved-posts") {
            Ok(ThingType::SavedPosts)
        } else if same_text(s, "saved-comments") {
            Ok(ThingType::SavedComments)
        } else if same_text(s, "upvoted") {
            Ok(ThingType::Upvoted)
        } else {
            Err("Invalid type")
        }
    }

    /// The name under which a user asks for this kind.
    pub open spec fn name_spec(self) -> Seq<char> {
        match self {
            ThingType::Posts => "posts"@,
            ThingType::Comments => "comments"@,
            ThingType::Friends => "friends"@,
            ThingType::SavedPosts => "saved-posts"@,
            ThingType::SavedComments => "saved-comments"@,
            ThingType::Upvoted => "upvoted"@,
        }
    }

    /// The name under which a user asks for this kind.
    pub fn name(self) -> (r: &'static str)
        ensures
            r@ == self.name_spec(),
    {
        match self {
            ThingType::Posts => "posts",
            ThingType::Comments => "comments",
            ThingType::Friends => "friends",
            ThingType::SavedPosts => "saved-posts",
            ThingType::SavedComments => "saved-comments",
            ThingType::Upvoted => "upvoted",
        }
    }
}

impl std::str::FromStr for ThingType {
    type Err = &'static str;

    /// Reads the name of a kind, as the inherent `from_str` does: any other
    /// text is refused with the message `Invalid type`.
    fn from_str(s: &str) -> (r: Result<ThingType, &'static str>)
        ensures
            match r {
                Ok(t) => ThingType::named(s@) == Some(t),
                Err(e) => ThingType::named(s@).is_none() && e@ == "Invalid type"@,
            },
    {
        ThingType::from_str(s)
    }
}

/// Every kind is read back from its own name.
pub proof fn lemma_name_round_trip(t: ThingType)
    ensures
        ThingType::named(t.name_spec()) == Some(t),
{
    reveal_strlit("posts");
    reveal_strlit("comments");
    reveal_strlit("friends");
    reveal_strlit("saved-posts");
    reveal_strlit("saved-comments");
    reveal_strlit("upvoted");
    match t {
        ThingType::Posts => {},
        ThingType::Comments => {
            assert("comments"@.len() != "posts"@.len());
        },
        ThingType::Friends => {
            assert("friends"@.len() != "posts"@.len());
            assert("friends"@.len() != "comments"@.len());
        },
        ThingType::SavedPosts => {
            assert("saved-posts"@.len() == 11);
        },
        ThingType::SavedComments => {
            assert("saved-comments"@.len() == 14);
        },
        ThingType::Upvoted => {
            assert("upvoted"@.len() == 7);
            assert("upvoted"@[0] == 'u');
            assert("friends"@[0] == 'f');
        },
    }
}

} // verus!
