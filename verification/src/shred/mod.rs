use vstd::prelude::*;

use crate::cli::{Config, Prevention};
use crate::filter::{skip_reason, Facts, SkipReason};
use crate::shred::machine::Action;
use crate::things::comment::Comment;
use crate::things::friend::Friend;
use crate::things::post::Post;
use crate::things::saved_comment::SavedComment;
use crate::things::saved_post::SavedPost;
use crate::things::thing::Thing;
use crate::things::upvoted::Upvoted;

pub mod laws;
pub mod machine;
pub mod requests;

verus! {

/// What the edit phase does with an item.
#[derive(Clone, Copy, Debug, PartialEq, Eq, Structural)]
pub enum EditPlan {
    /// Items of this kind have no text to replace.
    NoEditPhase,
    /// A filter keeps the item from being touched.
    Skip(SkipReason),
    /// The run is a dry run.
    DryRun,
    /// The call that replaces the text is made.
    Send,
}

/// The call that removes an item, by the item's kind.
#[derive(Clone, Copy, Debug, PartialEq, Eq, Structural)]
pub enum DeleteCall {
    /// Removes a comment or a post.
    Remove,
    /// Takes a saved comment or post off the saved list.
    Unsave,
    /// Sets the vote on an upvoted item back to neutral.
    Unvote,
    /// Ends the friendship with an account.
    Unfriend,
}

/// What the delete phase does with an item.
#[derive(Clone, Copy, Debug, PartialEq, Eq, Structural)]
pub enum DeletePlan {
    /// A filter keeps the item from being touched.
    Skip(SkipReason),
    /// The run's mode keeps the item from being removed.
    Prevented(Prevention),
    /// The call that removes the item is made.
    Send(DeleteCall),
}

/// What the edit phase does with an item, given whether its kind has text to
/// replace and what the filters read of it: nothing for a kind without text,
/// for an item that a filter skips and in a dry run; else the call is made.
pub open spec fn edit_plan_of(has_edit_phase: bool, facts: Facts, config: &Config) -> EditPlan {
    if !has_edit_phase {
        EditPlan::NoEditPhase
    } else {
        match skip_reason(facts, config) {
            Some(reason) => EditPlan::Skip(reason),
            None => if config.dry_run {
                EditPlan::DryRun
            } else {
                EditPlan::Send
            },
        }
    }
}

/// What the delete phase does with an item, given whether its kind has an
/// edit phase, what the filters read of it and the call that removes an item
/// of its kind. Nothing is done for an item that a filter skips, for any
/// item in a dry run, and in edit-only mode for an item of a kind that has
/// an edit phase; else the call is made. So edit-only mode keeps comments and
/// posts, and still removes saved items, upvotes and friends.
pub open spec fn delete_plan_of(
    has_edit_phase: bool,
    facts: Facts,
    call: DeleteCall,
    config: &Config,
) -> DeletePlan {
    match skip_reason(facts, config) {
        Some(reason) => DeletePlan::Skip(reason),
        None => match config.prevention_spec(has_edit_phase) {
            Some(mode) => DeletePlan::Prevented(mode),
            None => DeletePlan::Send(call),
        },
    }
}

/// What the edit phase does with an item.
pub open spec fn edit_plan(thing: &Thing, config: &Config) -> EditPlan {
    edit_plan_of(thing.has_edit_phase(), thing.facts(), config)
}

/// The call that removes an item of the thing's kind.
pub open spec fn delete_call(thing: &Thing) -> DeleteCall {
    match thing {
        Thing::Comment(_) => DeleteCall::Remove,
        Thing::Post(_) => DeleteCall::Remove,
        Thing::SavedComment(_) => DeleteCall::Unsave,
        Thing::SavedPost(_) => DeleteCall::Unsave,
        Thing::Friend(_) => DeleteCall::Unfriend,
        Thing::Upvoted(_) => DeleteCall::Unvote,
    }
}

/// What the delete phase does with an item.
pub open spec fn delete_plan(thing: &Thing, config: &Config) -> DeletePlan {
    delete_plan_of(thing.has_edit_phase(), thing.facts(), delete_call(thing), config)
}

/// The calls that the work on an item makes where every call is answered, in
/// their order: each phase that makes its call is followed by the throttle.
pub open spec fn planned_calls(edit: EditPlan, delete: DeletePlan) -> Seq<Action> {
    let first = if edit == EditPlan::Send {
        seq![Action::Edit, Action::Wait]
    } else {
        Seq::<Action>::empty()
    };
    match delete {
        DeletePlan::Send(call) => first + seq![Action::Delete(call), Action::Wait],
        _ => first,
    }
}

fn decide_edit(reason: Option<SkipReason>, config: &Config) -> (r: EditPlan)
    ensures
        r == match reason {
            Some(why) => EditPlan::Skip(why),
            None => if config.dry_run {
                EditPlan::DryRun
            } else {
                EditPlan::Send
            },
        },
{
    match reason {
        Some(why) => EditPlan::Skip(why),
        None => if config.dry_run {
            EditPlan::DryRun
        } else {
            EditPlan::Send
        },
    }
}

fn decide_delete(
    has_edit_phase: bool,
    reason: Option<SkipReason>,
    call: DeleteCall,
    config: &Config,
) -> (r: DeletePlan)
    ensures
        r == match reason {
            Some(why) => DeletePlan::Skip(why),
            None => match config.prevention_spec(has_edit_phase) {
                Some(mode) => DeletePlan::Prevented(mode),
                None => DeletePlan::Send(call),
            },
        },
{
    match reason {
        Some(why) => DeletePlan::Skip(why),
        None => match config.prevention(has_edit_phase) {
            Some(mode) => DeletePlan::Prevented(mode),
            None => DeletePlan::Send(call),
        },
    }
}

/// What can be shredded: every kind of item decides its delete phase, and
/// the kinds with a text decide an edit phase before it.
pub trait Shred {
    /// What the filters read of the item.
    spec fn filter_facts(&self) -> Facts;

    /// Whether the kind has an edit phase.
    spec fn has_text(&self) -> bool;

    /// The call that removes an item of the kind.
    spec fn removal(&self) -> DeleteCall;

    /// Decides the delete phase.
    fn delete(&self, config: &Config) -> (r: DeletePlan)
        ensures
            r == delete_plan_of(self.has_text(), self.filter_facts(), self.removal(), config),
    ;

    /// Decides the edit phase.
    fn edit(&self, config: &Config) -> (r: EditPlan)
        ensures
            r == edit_plan_of(self.has_text(), self.filter_facts(), config),
    ;
}

impl Shred for Comment {
    open spec fn filter_facts(&self) -> Facts {
        self.facts()
    }

    open spec fn has_text(&self) -> bool {
        true
    }

    open spec fn removal(&self) -> DeleteCall {
        DeleteCall::Remove
    }

    fn delete(&self, config: &Config) -> (r: DeletePlan) {
        decide_delete(true, self.skip_reason(config), DeleteCall::Remove, config)
    }

    fn edit(&self, config: &Config) -> (r: EditPlan) {
        decide_edit(self.skip_reason(config), config)
    }
}

impl Shred for Post {
    open spec fn filter_facts(&self) -> Facts {
        self.facts()
    }

    open spec fn has_text(&self) -> bool {
        true
    }

    open spec fn removal(&self) -> DeleteCall {
        DeleteCall::Remove
    }

    fn delete(&self, config: &Config) -> (r: DeletePlan) {
        decide_delete(true, self.skip_reason(config), DeleteCall::Remove, config)
    }

    fn edit(&self, config: &Config) -> (r: EditPlan) {
        decide_edit(self.skip_reason(config), config)
    }
}

impl Shred for SavedComment {
    open spec fn filter_facts(&self) -> Facts {
        self.facts()
    }

    open spec fn has_text(&self) -> bool {
        false
    }

    open spec fn removal(&self) -> DeleteCall {
        DeleteCall::Unsave
    }

    fn delete(&self, config: &Config) -> (r: DeletePlan) {
        decide_delete(false, self.skip_reason(config), DeleteCall::Unsave, config)
    }

    fn edit(&self, config: &Config) -> (r: EditPlan) {
        EditPlan::NoEditPhase
    }
}

impl Shred for SavedPost {
    open spec fn filter_facts(&self) -> Facts {
        self.facts()
    }

    open spec fn has_text(&self) -> bool {
        false
    }

    open spec fn removal(&self) -> DeleteCall {
        DeleteCall::Unsave
    }

    fn delete(&self, config: &Config) -> (r: DeletePlan) {
        decide_delete(false, self.skip_reason(config), DeleteCall::Unsave, config)
    }

    fn edit(&self, config: &Config) -> (r: EditPlan) {
        EditPlan::NoEditPhase
    }
}

impl Shred for Friend {
    open spec fn filter_facts(&self) -> Facts {
        self.facts()
    }

    open spec fn has_text(&self) -> bool {
        false
    }

    open spec fn removal(&self) -> DeleteCall {
        DeleteCall::Unfriend
    }

    fn delete(&self, config: &Config) -> (r: DeletePlan) {
        decide_delete(false, self.skip_reason(config), DeleteCall::Unfriend, config)
    }

    fn edit(&self, config: &Config) -> (r: EditPlan) {
        EditPlan::NoEditPhase
    }
}

impl Shred for Upvoted {
    open spec fn filter_facts(&self) -> Facts {
        self.facts()
    }

    open spec fn has_text(&self) -> bool {
        false
    }

    open spec fn removal(&self) -> DeleteCall {
        DeleteCall::Unvote
    }

    fn delete(&self, config: &Config) -> (r: DeletePlan) {
        decide_delete(false, self.skip_reason(config), DeleteCall::Unvote, config)
    }

    fn edit(&self, config: &Config) -> (r: EditPlan) {
        EditPlan::NoEditPhase
    }
}

impl Shred for Thing {
    open spec fn filter_facts(&self) -> Facts {
        self.facts()
    }

    open spec fn has_text(&self) -> bool {
        self.has_edit_phase()
    }

    open spec fn removal(&self) -> DeleteCall {
        delete_call(self)
    }

    fn delete(&self, config: &Config) -> (r: DeletePlan) {
        match self {
            Thing::Comment(c) => c.delete(config),
            Thing::Post(p) => p.delete(config),
            Thing::SavedComment(c) => c.delete(config),
            Thing::SavedPost(p) => p.delete(config),
            Thing::Friend(f) => f.delete(config),
            Thing::Upvoted(u) => u.delete(config),
        }
    }

    fn edit(&self, config: &Config) -> (r: EditPlan) {
        match self {
            Thing::Comment(c) => c.edit(config),
            Thing::Post(p) => p.edit(config),
            Thing::SavedComment(c) => c.edit(config),
            Thing::SavedPost(p) => p.edit(config),
            Thing::Friend(f) => f.edit(config),
            Thing::Upvoted(u) => u.edit(config),
        }
    }
}

/// Lays out the work on one item: the calls that are made where every call
/// is answered, in their order. The edit comes first, then the throttle, then
/// the removal and the throttle again; a phase that makes no call leaves no
/// trace.
pub fn shred<T: Shred>(thing: &T, config: &Config) -> (r: Vec<Action>)
    ensures
        r@ == planned_calls(
            edit_plan_of(thing.has_text(), thing.filter_facts(), config),
            delete_plan_of(thing.has_text(), thing.filter_facts(), thing.removal(), config),
        ),
{
    let mut calls: Vec<Action> = Vec::new();
    if let EditPlan::Send = thing.edit(config) {
        calls.push(Action::Edit);
        calls.push(Action::Wait);
    }
    let ghost first = calls@;
    if let DeletePlan::Send(call) = thing.delete(config) {
        calls.push(Action::Delete(call));
        calls.push(Action::Wait);
        assert(calls@ =~= first + seq![Action::Delete(call), Action::Wait]);
    }
    assert(first =~= if edit_plan_of(thing.has_text(), thing.filter_facts(), config)
        == EditPlan::Send {
        seq![Action::Edit, Action::Wait]
    } else {
        Seq::<Action>::empty()
    });
    calls
}

} // verus!
