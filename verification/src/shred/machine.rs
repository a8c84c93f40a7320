use vstd::prelude::*;

use crate::cli::{Config, Prevention};
use crate::filter::SkipReason;
use crate::json::EditOutcome;
use crate::shred::{delete_plan, edit_plan, DeleteCall, DeletePlan, EditPlan, Shred};
use crate::things::thing::Thing;
use crate::things::{Provenance, ShredditError};

verus! {

/// Where the work on one item stands.
#[derive(Clone, Copy, Debug, PartialEq, Eq, Structural)]
pub enum ShredState {
    /// Nothing was done yet.
    Pending,
    /// The call that replaces the text is under way.
    Editing,
    /// The edit failed on an exported item; a live copy is being fetched to
    /// tell why.
    Upgrading,
    /// The edit call was made and the throttle is engaged.
    EditSettling,
    /// The edit phase is over and made no call.
    Skip,
    /// The edit phase is over and made its call.
    Edited,
    /// The call that removes the item is under way.
    Deleting,
    /// The delete call was made and the throttle is engaged.
    DeleteSettling,
    /// Done: the delete phase made no call.
    NoOp,
    /// Done: the delete phase made its call.
    Deleted,
    /// Given up: a call could not be carried to the service or its answer
    /// could not be read. The whole run ends here.
    Aborted,
}

/// What happened outside since the last step.
#[derive(Clone, Copy, Debug, PartialEq, Eq, Structural)]
pub enum Event {
    /// The work on the item starts.
    Begin,
    /// The edit call was answered, with this outcome.
    EditReplied(EditOutcome),
    /// The lookup of a live copy ended: with the copy's `editable` flag, or
    /// without a copy.
    LookupReplied(Option<bool>),
    /// The throttle's pause is over.
    Slept,
    /// There was nothing to do outside.
    Proceeded,
    /// The delete call was answered; the flag tells whether with success.
    DeleteReplied(bool),
    /// The call that was under way could not be carried to the service, or
    /// its answer could not be read.
    TransportFailed,
}

/// What is to be done outside before the next step.
#[derive(Clone, Copy, Debug, PartialEq, Eq, Structural)]
pub enum Action {
    /// Send the request that replaces the item's text.
    Edit,
    /// Fetch a live copy of the item.
    Lookup,
    /// Engage the throttle and sleep for its pause.
    Wait,
    /// Send the request that removes the item.
    Delete(DeleteCall),
    /// Nothing; step again at once.
    Proceed,
    /// Nothing; the item is done.
    Finish,
    /// End the whole run with an error.
    Abort,
}

/// What a step has to tell the user.
#[derive(Clone, Copy, Debug, PartialEq, Eq, Structural)]
pub enum Note {
    /// A filter kept the phase from touching the item.
    Skipped(SkipReason),
    /// The edit was left out because the run is a dry run.
    DryRun,
    /// The removal was left out because of the run's mode.
    Prevented(Prevention),
    /// The text was replaced.
    Edited,
    /// The service refused the edit because too many calls were made.
    RateLimited,
    /// The edit failed, and the item can no longer be edited: a moderator
    /// has probably removed it.
    RemovedByModerator,
    /// The edit failed for a reason that is not known.
    EditFailed,
    /// The edit failed and no live copy could be fetched to tell why.
    LookupFailed,
    /// The item was removed.
    Deleted,
    /// The service refused to remove the item.
    DeleteFailed,
    /// A call could not be carried to the service or its answer could not be
    /// read.
    TransportFailed,
}

/// The result of one step.
#[derive(Clone, Copy, Debug, PartialEq, Eq, Structural)]
pub struct Step {
    pub state: ShredState,
    pub action: Action,
    pub note: Option<Note>,
}

/// Why an edit failed, read off the `editable` flag of a live copy.
pub open spec fn diagnosis(editable: bool) -> Note {
    if editable {
        Note::EditFailed
    } else {
        Note::RemovedByModerator
    }
}

/// The step that opens the edit phase.
pub open spec fn begin_edit(thing: &Thing, config: &Config) -> Step {
    match edit_plan(thing, config) {
        EditPlan::Send => Step { state: ShredState::Editing, action: Action::Edit, note: None },
        EditPlan::NoEditPhase => Step {
            state: ShredState::Skip,
            action: Action::Proceed,
            note: None,
        },
        EditPlan::Skip(reason) => Step {
            state: ShredState::Skip,
            action: Action::Proceed,
            note: Some(Note::Skipped(reason)),
        },
        EditPlan::DryRun => Step {
            state: ShredState::Skip,
            action: Action::Proceed,
            note: Some(Note::DryRun),
        },
    }
}

/// The step that follows the answer to an edit. A failed edit of an exported
/// item leads to a lookup; every other answer leads to the throttle.
pub open spec fn after_edit(thing: &Thing, outcome: EditOutcome) -> Step {
    match outcome {
        EditOutcome::Edited => Step {
            state: ShredState::EditSettling,
            action: Action::Wait,
            note: Some(Note::Edited),
        },
        EditOutcome::RateLimited => Step {
            state: ShredState::EditSettling,
            action: Action::Wait,
            note: Some(Note::RateLimited),
        },
        EditOutcome::Failed => match thing.provenance_spec() {
            Some(Provenance::Live { editable, .. }) => Step {
                state: ShredState::EditSettling,
                action: Action::Wait,
                note: Some(diagnosis(editable)),
            },
            Some(Provenance::Exported { .. }) => Step {
                state: ShredState::Upgrading,
                action: Action::Lookup,
                note: None,
            },
            None => Step {
                state: ShredState::EditSettling,
                action: Action::Wait,
                note: Some(Note::EditFailed),
            },
        },
    }
}

/// What the lookup of a live copy has to tell the state machine: whether the
/// copy can still be edited. A lookup that failed tells nothing, and neither
/// does a copy that is not live.
pub open spec fn lookup_reply_spec(copy: Result<Provenance, ShredditError>) -> Event {
    Event::LookupReplied(
        match copy {
            Ok(source) => source.editable_spec(),
            Err(_) => None,
        },
    )
}

/// The event that reports the outcome of a lookup.
pub fn lookup_reply(copy: Result<Provenance, ShredditError>) -> (r: Event)
    ensures
        r == lookup_reply_spec(copy),
{
    Event::LookupReplied(
        match copy {
            Ok(source) => source.editable(),
            Err(_) => None,
        },
    )
}

/// The step that follows a lookup: it only tells why the edit failed.
pub open spec fn after_lookup(found: Option<bool>) -> Step {
    Step {
        state: ShredState::EditSettling,
        action: Action::Wait,
        note: Some(
            match found {
                Some(editable) => diagnosis(editable),
                None => Note::LookupFailed,
            },
        ),
    }
}

/// The step that opens the delete phase.
pub open spec fn begin_delete(thing: &Thing, config: &Config) -> Step {
    match delete_plan(thing, config) {
        DeletePlan::Send(call) => Step {
            state: ShredState::Deleting,
            action: Action::Delete(call),
            note: None,
        },
        DeletePlan::Skip(reason) => Step {
            state: ShredState::NoOp,
            action: Action::Finish,
            note: Some(Note::Skipped(reason)),
        },
        DeletePlan::Prevented(mode) => Step {
            state: ShredState::NoOp,
            action: Action::Finish,
            note: Some(Note::Prevented(mode)),
        },
    }
}

/// The step that follows the answer to a delete call.
pub open spec fn after_delete(success: bool) -> Step {
    Step {
        state: ShredState::DeleteSettling,
        action: Action::Wait,
        note: Some(
            if success {
                Note::Deleted
            } else {
                Note::DeleteFailed
            },
        ),
    }
}

/// Whether a call to the service is under way in a state.
pub open spec fn awaits_answer(state: ShredState) -> bool {
    state == ShredState::Editing || state == ShredState::Upgrading || state
        == ShredState::Deleting
}

/// Whether the work on the item is over in a state.
pub open spec fn is_final(state: ShredState) -> bool {
    state == ShredState::NoOp || state == ShredState::Deleted || state == ShredState::Aborted
}

/// The step that gives up the run.
pub open spec fn give_up() -> Step {
    Step {
        state: ShredState::Aborted,
        action: Action::Abort,
        note: Some(Note::TransportFailed),
    }
}

/// The step from a state on an event; `None` where the event cannot occur in
/// the state.
pub open spec fn step_spec(thing: &Thing, config: &Config, state: ShredState, event: Event) -> Option<
    Step,
> {
    match (state, event) {
        (ShredState::Pending, Event::Begin) => Some(begin_edit(thing, config)),
        (ShredState::Editing, Event::EditReplied(outcome)) => Some(after_edit(thing, outcome)),
        (ShredState::Upgrading, Event::LookupReplied(found)) => Some(after_lookup(found)),
        (ShredState::EditSettling, Event::Slept) => Some(
            Step { state: ShredState::Edited, action: Action::Proceed, note: None },
        ),
        (ShredState::Skip, Event::Proceeded) => Some(begin_delete(thing, config)),
        (ShredState::Edited, Event::Proceeded) => Some(begin_delete(thing, config)),
        (ShredState::Deleting, Event::DeleteReplied(success)) => Some(after_delete(success)),
        (ShredState::DeleteSettling, Event::Slept) => Some(
            Step { state: ShredState::Deleted, action: Action::Finish, note: None },
        ),
        (ShredState::Editing, Event::TransportFailed) => Some(give_up()),
        (ShredState::Upgrading, Event::TransportFailed) => Some(give_up()),
        (ShredState::Deleting, Event::TransportFailed) => Some(give_up()),
        _ => None,
    }
}

/// How many steps the work on an item can still take from a state, at most.
pub open spec fn steps_left(state: ShredState) -> nat {
    match state {
        ShredState::Pending => 7,
        ShredState::Editing => 6,
        ShredState::Upgrading => 5,
        ShredState::EditSettling => 4,
        ShredState::Skip => 3,
        ShredState::Edited => 3,
        ShredState::Deleting => 2,
        ShredState::DeleteSettling => 1,
        ShredState::NoOp => 0,
        ShredState::Deleted => 0,
        ShredState::Aborted => 0,
    }
}

fn diagnose(editable: bool) -> (r: Note)
    ensures
        r == diagnosis(editable),
{
    if editable {
        Note::EditFailed
    } else {
        Note::RemovedByModerator
    }
}

fn open_delete(thing: &Thing, config: &Config) -> (r: Step)
    ensures
        r == begin_delete(thing, config),
{
    match thing.delete(config) {
        DeletePlan::Send(call) => Step {
            state: ShredState::Deleting,
            action: Action::Delete(call),
            note: None,
        },
        DeletePlan::Skip(reason) => Step {
            state: ShredState::NoOp,
            action: Action::Finish,
            note: Some(Note::Skipped(reason)),
        },
        DeletePlan::Prevented(mode) => Step {
            state: ShredState::NoOp,
            action: Action::Finish,
            note: Some(Note::Prevented(mode)),
        },
    }
}

fn open_edit(thing: &Thing, config: &Config) -> (r: Step)
    ensures
        r == begin_edit(thing, config),
{
    match thing.edit(config) {
        EditPlan::Send => Step { state: ShredState::Editing, action: Action::Edit, note: None },
        EditPlan::NoEditPhase => Step {
            state: ShredState::Skip,
            action: Action::Proceed,
            note: None,
        },
        EditPlan::Skip(reason) => Step {
            state: ShredState::Skip,
            action: Action::Proceed,
            note: Some(Note::Skipped(reason)),
        },
        EditPlan::DryRun => Step {
            state: ShredState::Skip,
            action: Action::Proceed,
            note: Some(Note::DryRun),
        },
    }
}

fn settle_edit(thing: &Thing, outcome: EditOutcome) -> (r: Step)
    ensures
        r == after_edit(thing, outcome),
{
    let note = match outcome {
        EditOutcome::Edited => Note::Edited,
        EditOutcome::RateLimited => Note::RateLimited,
        EditOutcome::Failed => match thing.provenance() {
            Some(Provenance::Live { editable, .. }) => diagnose(editable),
            Some(Provenance::Exported { .. }) => {
                return Step { state: ShredState::Upgrading, action: Action::Lookup, note: None };
            },
            None => Note::EditFailed,
        },
    };
    Step { state: ShredState::EditSettling, action: Action::Wait, note: Some(note) }
}

/// Takes the work on one item one step further: from the state it is in and
/// what happened outside, to the next state and what is to be done outside.
/// An event that cannot occur in the state is refused with `None`.
pub fn step(thing: &Thing, config: &Config, state: ShredState, event: Event) -> (r: Option<Step>)
    ensures
        r == step_spec(thing, config, state, event),
{
    match (state, event) {
        (ShredState::Pending, Event::Begin) => Some(open_edit(thing, config)),
        (ShredState::Editing, Event::EditReplied(outcome)) => Some(settle_edit(thing, outcome)),
        (ShredState::Upgrading, Event::LookupReplied(found)) => {
            let note = match found {
                Some(editable) => diagnose(editable),
                None => Note::LookupFailed,
            };
            Some(Step { state: ShredState::EditSettling, action: Action::Wait, note: Some(note) })
        },
        (ShredState::EditSettling, Event::Slept) => Some(
            Step { state: ShredState::Edited, action: Action::Proceed, note: None },
        ),
        (ShredState::Skip, Event::Proceeded) => Some(open_delete(thing, config)),
        (ShredState::Edited, Event::Proceeded) => Some(open_delete(thing, config)),
        (ShredState::Deleting, Event::DeleteReplied(success)) => {
            let note = if success {
                Note::Deleted
            } else {
                Note::DeleteFailed
            };
            Some(Step { state: ShredState::DeleteSettling, action: Action::Wait, note: Some(note) })
        },
        (ShredState::DeleteSettling, Event::Slept) => Some(
            Step { state: ShredState::Deleted, action: Action::Finish, note: None },
        ),
        (ShredState::Editing, Event::TransportFailed)
        | (ShredState::Upgrading, Event::TransportFailed)
        | (ShredState::Deleting, Event::TransportFailed) => Some(
            Step {
                state: ShredState::Aborted,
                action: Action::Abort,
                note: Some(Note::TransportFailed),
            },
        ),
        _ => None,
    }
}

} // verus!
