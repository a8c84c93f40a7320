use vstd::prelude::*;

use crate::cli::Config;
use crate::filter::skips;
use crate::json::EditOutcome;
use crate::shred::machine::{
    after_delete, after_edit, after_lookup, awaits_answer, begin_delete, begin_edit, give_up,
    is_final, step_spec, steps_left, Action, Event, Note, ShredState, Step,
};
use crate::shred::{
    delete_call, delete_plan, edit_plan, planned_calls, DeleteCall, DeletePlan, EditPlan,
};
use crate::things::thing::Thing;
use crate::things::Provenance;

verus! {

/// The work on an item always comes to an end: every step leads to a state
/// from which fewer steps are left, so that no run takes more than seven. A
/// step ends the work exactly where it asks for nothing more, and in a state
/// where the work is over no event is taken any more.
pub proof fn lemma_every_step_makes_progress(
    thing: &Thing,
    config: &Config,
    state: ShredState,
    event: Event,
)
    ensures
        match step_spec(thing, config, state, event) {
            Some(next) => {
                &&& steps_left(next.state) < steps_left(state)
                &&& is_final(next.state) <==> (next.action == Action::Finish || next.action
                    == Action::Abort)
            },
            None => true,
        },
        is_final(state) ==> step_spec(thing, config, state, event).is_none(),
{
}

/// A call that cannot be carried to the service, or whose answer cannot be
/// read, ends the whole run at once, in each of the states in which a call is
/// under way. An answer that tells of a failure does not: after it the work
/// on the item goes on to the throttle or to a lookup.
pub proof fn lemma_only_transport_failure_is_fatal(
    thing: &Thing,
    config: &Config,
    state: ShredState,
    event: Event,
)
    ensures
        awaits_answer(state) ==> step_spec(thing, config, state, Event::TransportFailed) == Some(
            give_up(),
        ),
        match step_spec(thing, config, state, event) {
            Some(next) => next.action == Action::Abort <==> (awaits_answer(state) && event
                == Event::TransportFailed),
            None => true,
        },
{
}

/// The event that reports that what a step asked for was done and went well.
pub open spec fn good_news(action: Action) -> Event {
    match action {
        Action::Edit => Event::EditReplied(EditOutcome::Edited),
        Action::Lookup => Event::LookupReplied(Some(true)),
        Action::Wait => Event::Slept,
        Action::Delete(_) => Event::DeleteReplied(true),
        _ => Event::Proceeded,
    }
}

/// Whether an action is a call to the service or a pause of the throttle.
pub open spec fn is_outside_work(action: Action) -> bool {
    action == Action::Edit || action == Action::Lookup || action == Action::Wait
        || action is Delete
}

/// The outside work that a run asks for from a state on, in its order, where
/// everything that is asked for goes well. `limit` bounds the steps.
pub open spec fn smooth_run(
    thing: &Thing,
    config: &Config,
    state: ShredState,
    event: Event,
    limit: nat,
) -> Seq<Action>
    decreases limit,
{
    if limit == 0 {
        Seq::empty()
    } else {
        match step_spec(thing, config, state, event) {
            Some(next) => {
                let rest = smooth_run(
                    thing,
                    config,
                    next.state,
                    good_news(next.action),
                    (limit - 1) as nat,
                );
                if is_outside_work(next.action) {
                    seq![next.action] + rest
                } else {
                    rest
                }
            },
            None => Seq::empty(),
        }
    }
}

/// Where every call goes well, the state machine asks for exactly the work
/// that `shred` lays out, in the same order: the edit and the throttle, then
/// the removal and the throttle, each pair only where its phase makes its
/// call.
pub proof fn lemma_smooth_run_is_the_plan(thing: &Thing, config: &Config)
    ensures
        smooth_run(thing, config, ShredState::Pending, Event::Begin, 7) == planned_calls(
            edit_plan(thing, config),
            delete_plan(thing, config),
        ),
{
    reveal_with_fuel(smooth_run, 8);
    assert(smooth_run(thing, config, ShredState::Pending, Event::Begin, 7) =~= planned_calls(
        edit_plan(thing, config),
        delete_plan(thing, config),
    ));
}

/// The state machine opens each phase as the item's plan says: the edit call
/// is asked for exactly where the edit phase makes its call, and the delete
/// call exactly where the delete phase does.
pub proof fn lemma_steps_follow_the_plans(thing: &Thing, config: &Config)
    ensures
        begin_edit(thing, config).action == Action::Edit <==> edit_plan(thing, config)
            == EditPlan::Send,
        forall|call: DeleteCall|
            begin_delete(thing, config).action == Action::Delete(call) <==> delete_plan(
                thing,
                config,
            ) == DeletePlan::Send(call),
{
}

/// In a dry run no step ever asks for a call that changes or removes
/// something, whatever the state and the event, and the work on an item still
/// runs through to its end: both phases are passed over without outside work.
pub proof fn lemma_dry_run_makes_no_call(
    thing: &Thing,
    config: &Config,
    state: ShredState,
    event: Event,
)
    requires
        config.dry_run,
    ensures
        match step_spec(thing, config, state, event) {
            Some(next) => next.action != Action::Edit && !(next.action is Delete),
            None => true,
        },
        edit_plan(thing, config) != EditPlan::Send,
        !(delete_plan(thing, config) is Send),
        begin_edit(thing, config).state == ShredState::Skip,
        begin_edit(thing, config).action == Action::Proceed,
        begin_delete(thing, config).state == ShredState::NoOp,
        begin_delete(thing, config).action == Action::Finish,
{
}

/// In edit-only mode the delete phase of a comment or a post never makes its
/// call, whatever the filters say of it.
pub proof fn lemma_edit_only_never_deletes(
    thing: &Thing,
    config: &Config,
    state: ShredState,
    event: Event,
)
    requires
        config.edit_only,
        thing.has_edit_phase(),
    ensures
        match step_spec(thing, config, state, event) {
            Some(next) => !(next.action is Delete),
            None => true,
        },
        !(delete_plan(thing, config) is Send),
        begin_delete(thing, config).state == ShredState::NoOp,
        begin_delete(thing, config).action == Action::Finish,
{
}

/// Edit-only mode does not reach the kinds that have no edit phase: a saved
/// item, an upvote and a friend are removed in edit-only mode exactly as
/// without it.
pub proof fn lemma_edit_only_spares_only_editable_kinds(
    thing: &Thing,
    plain: &Config,
    edit_only: &Config,
)
    requires
        !thing.has_edit_phase(),
        plain.dry_run == edit_only.dry_run,
        plain.skip_comment_ids == edit_only.skip_comment_ids,
        plain.skip_post_ids == edit_only.skip_post_ids,
        plain.skip_subreddits == edit_only.skip_subreddits,
        plain.only_subreddits == edit_only.only_subreddits,
        plain.before == edit_only.before,
        plain.after == edit_only.after,
        plain.max_score == edit_only.max_score,
    ensures
        delete_plan(thing, plain) == delete_plan(thing, edit_only),
        begin_delete(thing, plain) == begin_delete(thing, edit_only),
        !edit_only.dry_run && !skips(thing.facts(), edit_only) ==> delete_plan(thing, edit_only)
            == DeletePlan::Send(delete_call(thing)),
{
}

/// Edit-only mode leaves the edit phase as it is: two configurations with
/// the same filters and the same `dry_run` decide it alike, whatever their
/// `edit_only`.
pub proof fn lemma_edit_only_leaves_edit_phase(thing: &Thing, plain: &Config, edit_only: &Config)
    requires
        plain.dry_run == edit_only.dry_run,
        plain.skip_comment_ids == edit_only.skip_comment_ids,
        plain.skip_post_ids == edit_only.skip_post_ids,
        plain.skip_subreddits == edit_only.skip_subreddits,
        plain.only_subreddits == edit_only.only_subreddits,
        plain.before == edit_only.before,
        plain.after == edit_only.after,
        plain.max_score == edit_only.max_score,
    ensures
        edit_plan(thing, plain) == edit_plan(thing, edit_only),
        begin_edit(thing, plain) == begin_edit(thing, edit_only),
{
}

/// A rate-limited edit is noted and not tried again, and the item goes on to
/// its delete phase as after any other edit: through the throttle, and then
/// to the call that removes it unless the run's mode prevents that.
pub proof fn lemma_rate_limited_edit_goes_on(thing: &Thing, config: &Config)
    ensures
        step_spec(thing, config, ShredState::Editing, Event::EditReplied(EditOutcome::RateLimited))
            == Some(
            Step {
                state: ShredState::EditSettling,
                action: Action::Wait,
                note: Some(Note::RateLimited),
            },
        ),
        step_spec(thing, config, ShredState::EditSettling, Event::Slept) == Some(
            Step { state: ShredState::Edited, action: Action::Proceed, note: None },
        ),
        step_spec(thing, config, ShredState::Edited, Event::Proceeded) == Some(
            begin_delete(thing, config),
        ),
        edit_plan(thing, config) == EditPlan::Send && !config.edit_only ==> begin_delete(
            thing,
            config,
        ) == (Step {
            state: ShredState::Deleting,
            action: Action::Delete(delete_call(thing)),
            note: None,
        }),
{
}

/// Every call is followed by the throttle before the item's next phase: the
/// answer to an edit leads to the pause, at most by way of a lookup, and so
/// does the answer to a delete call.
pub proof fn lemma_calls_are_throttled(
    thing: &Thing,
    outcome: EditOutcome,
    found: Option<bool>,
    success: bool,
)
    ensures
        after_edit(thing, outcome).action == Action::Wait || (after_edit(thing, outcome).action
            == Action::Lookup && after_edit(thing, outcome).state == ShredState::Upgrading),
        after_lookup(found).action == Action::Wait,
        after_delete(success).action == Action::Wait,
{
}

/// The lookup of a live copy is asked for only after a failed edit of an
/// exported item, and it changes nothing but the note: the item goes on to
/// the throttle and to its delete phase as it would have without it.
pub proof fn lemma_upgrade_is_diagnostic_only(thing: &Thing, outcome: EditOutcome, found: Option<bool>)
    ensures
        after_edit(thing, outcome).action == Action::Lookup <==> (outcome == EditOutcome::Failed
            && thing.provenance_spec() matches Some(Provenance::Exported { .. })),
        after_lookup(found).state == ShredState::EditSettling,
{
}

} // verus!
