use vstd::prelude::*;

use crate::things::comment::Comment;
use crate::things::friend::Friend;
use crate::things::post::Post;
use crate::things::saved_comment::SavedComment;
use crate::things::saved_post::SavedPost;
use crate::things::upvoted::{Upvoted, Vote};
use crate::things::{reversed, same_text, ThingType};

verus! {

/// A kind of row that an export holds in a file of its own.
pub trait Gdpr {
    /// The name of the file within the export's directory.
    spec fn filename_spec() -> Seq<char>;

    /// The name of the file within the export's directory.
    fn filename() -> (r: &'static str)
        ensures
            r@ == Self::filename_spec(),
    ;
}

impl Gdpr for Comment {
    open spec fn filename_spec() -> Seq<char> {
        "comments.csv"@
    }

    fn filename() -> (r: &'static str) {
        "comments.csv"
    }
}

impl Gdpr for Post {
    open spec fn filename_spec() -> Seq<char> {
        "posts.csv"@
    }

    fn filename() -> (r: &'static str) {
        "posts.csv"
    }
}

impl Gdpr for Friend {
    open spec fn filename_spec() -> Seq<char> {
        "friends.csv"@
    }

    fn filename() -> (r: &'static str) {
        "friends.csv"
    }
}

impl Gdpr for SavedComment {
    open spec fn filename_spec() -> Seq<char> {
        "saved_comments.csv"@
    }

    fn filename() -> (r: &'static str) {
        "saved_comments.csv"
    }
}

impl Gdpr for SavedPost {
    open spec fn filename_spec() -> Seq<char> {
        "saved_posts.csv"@
    }

    fn filename() -> (r: &'static str) {
        "saved_posts.csv"
    }
}

impl Gdpr for Vote {
    open spec fn filename_spec() -> Seq<char> {
        "post_votes.csv"@
    }

    fn filename() -> (r: &'static str) {
        "post_votes.csv"
    }
}

/// The file of an export that holds the rows of a kind.
pub open spec fn export_file_spec(kind: ThingType) -> Seq<char> {
    match kind {
        ThingType::Comments => Comment::filename_spec(),
        ThingType::Posts => Post::filename_spec(),
        ThingType::Friends => Friend::filename_spec(),
        ThingType::SavedComments => SavedComment::filename_spec(),
        ThingType::SavedPosts => SavedPost::filename_spec(),
        ThingType::Upvoted => Vote::filename_spec(),
    }
}

/// The file of an export that holds the rows of a kind.
pub fn export_file(kind: ThingType) -> (r: &'static str)
    ensures
        r@ == export_file_spec(kind),
{
    match kind {
        ThingType::Comments => Comment::filename(),
        ThingType::Posts => Post::filename(),
        ThingType::Friends => Friend::filename(),
        ThingType::SavedComments => SavedComment::filename(),
        ThingType::SavedPosts => SavedPost::filename(),
        ThingType::Upvoted => Vote::filename(),
    }
}

/// The id and the permalink of every vote up among the rows, in the order of
/// the rows.
pub open spec fn votes_up(rows: Seq<Vote>) -> Seq<(Seq<char>, Seq<char>)>
    decreases rows.len(),
{
    if rows.len() == 0 {
        Seq::empty()
    } else if rows.last().is_up() {
        votes_up(rows.drop_last()).push((rows.last().id@, rows.last().permalink@))
    } else {
        votes_up(rows.drop_last())
    }
}

/// The id and the permalink of each item, in order.
pub open spec fn ids_and_links(items: Seq<Upvoted>) -> Seq<(Seq<char>, Seq<char>)> {
    Seq::new(items.len(), |i: int| (items[i].id@, items[i].permalink@))
}

/// Turns the rows of an export's table of votes into upvoted items: the rows
/// whose direction is `up`, in the order of the table, each as an exported
/// post. Rows of any other direction are dropped.
pub fn upvotes(rows: Vec<Vote>) -> (r: Vec<Upvoted>)
    ensures
        ids_and_links(r@) == votes_up(rows@),
        forall|i: int|
            0 <= i < r@.len() ==> (#[trigger] r@[i]).type_id@ == "t3"@ && r@[i].source
                == crate::things::upvoted::UpvotedSource::Exported,
{
    let ghost all = rows@;
    let mut rest = reversed(rows);
    let mut out: Vec<Upvoted> = Vec::new();
    let ghost mut done: int = 0;
    assert(all.subrange(0, 0) =~= Seq::<Vote>::empty());
    while rest.len() > 0
        invariant
            done + rest@.len() == all.len(),
            0 <= done,
            forall|k: int| 0 <= k < rest@.len() ==> rest@[k] == all[all.len() - 1 - k],
            ids_and_links(out@) == votes_up(all.subrange(0, done)),
            forall|i: int|
                0 <= i < out@.len() ==> (#[trigger] out@[i]).type_id@ == "t3"@ && out@[i].source
                    == crate::things::upvoted::UpvotedSource::Exported,
        decreases rest.len(),
    {
        let row = rest.pop().unwrap();
        proof {
            assert(row == all[done]);
            assert(all.subrange(0, done + 1).drop_last() =~= all.subrange(0, done));
            assert(all.subrange(0, done + 1).last() == all[done]);
        }
        if same_text(row.direction.as_str(), "up") {
            let ghost before = out@;
            let item = row.into_upvoted("t3".to_owned());
            out.push(item);
            assert(ids_and_links(out@) =~= ids_and_links(before).push(
                (all[done].id@, all[done].permalink@),
            ));
        }
        proof {
            done = done + 1;
        }
    }
    assert(all.subrange(0, all.len() as int) =~= all);
    out
}

} // verus!
