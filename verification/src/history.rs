//! What a history of outcomes leads to.
//!
//! The state machine of [`crate::startup`] is defined step by step. This
//! module says in closed form where a whole history of outcomes leaves it,
//! and derives from that what holds of every start-up: that the event loop
//! runs only after every registration has succeeded, that a failed
//! registration is never followed by a running application, and that the
//! plug-ins are asked for in their order.

use crate::plugin::registration_order;
use crate::startup::{Action, Outcome, Phase, State};
use vstd::prelude::*;

verus! {

/// Whether every outcome of the history is a success.
pub open spec fn all_succeeded(outcomes: Seq<Outcome>) -> bool {
    forall|i: int| 0 <= i < outcomes.len() ==> outcomes[i] == Outcome::Succeeded
}

/// The number of successes with which a history begins.
pub open spec fn leading_successes(outcomes: Seq<Outcome>) -> nat
    decreases outcomes.len(),
{
    if outcomes.len() == 0 || outcomes.first() == Outcome::Failed {
        0
    } else {
        1 + leading_successes(outcomes.drop_first())
    }
}

/// The state to which a history leads from the start, in closed form.
///
/// A plug-in is registered for each leading success, until all are. Start-up
/// is aborted when the first failure answers a registration or the event
/// loop; otherwise the number of outcomes tells the phase.
pub open spec fn state_after(debug: bool, outcomes: Seq<Outcome>) -> State {
    let plugins = registration_order(debug).len();
    let successes = leading_successes(outcomes);
    State {
        debug,
        registered: if successes < plugins {
            successes
        } else {
            plugins
        },
        phase: if successes < outcomes.len() && successes <= plugins {
            Phase::Aborted
        } else if outcomes.len() < plugins {
            Phase::Registering
        } else if outcomes.len() == plugins {
            Phase::Running
        } else {
            Phase::Finished
        },
    }
}

/// The state in which start-up stands after the first `count` outcomes of a
/// history.
pub open spec fn state_at(debug: bool, outcomes: Seq<Outcome>, count: int) -> State {
    State::initial(debug).after_all(outcomes.take(count))
}

/// The leading successes are successes, they are followed by a failure or by
/// nothing, and they make up the whole history exactly when nothing failed.
pub proof fn lemma_leading_successes(outcomes: Seq<Outcome>)
    ensures
        leading_successes(outcomes) <= outcomes.len(),
        forall|i: int| 0 <= i < leading_successes(outcomes) ==> outcomes[i] == Outcome::Succeeded,
        leading_successes(outcomes) < outcomes.len() ==> outcomes[leading_successes(
            outcomes,
        ) as int] == Outcome::Failed,
        leading_successes(outcomes) == outcomes.len() <==> all_succeeded(outcomes),
    decreases outcomes.len(),
{
    if outcomes.len() > 0 && outcomes.first() == Outcome::Succeeded {
        let rest = outcomes.drop_first();
        lemma_leading_successes(rest);
        assert forall|i: int| 0 <= i < leading_successes(outcomes) implies outcomes[i]
            == Outcome::Succeeded by {
            if i > 0 {
                assert(outcomes[i] == rest[i - 1]);
            }
        }
        if leading_successes(outcomes) < outcomes.len() {
            assert(outcomes[leading_successes(outcomes) as int] == rest[leading_successes(
                rest,
            ) as int]);
        }
    }
}

/// A history of which a place is known to hold the first failure begins
/// with as many successes as that place says.
proof fn lemma_first_failure(outcomes: Seq<Outcome>, place: int)
    requires
        0 <= place <= outcomes.len(),
        forall|i: int| 0 <= i < place ==> outcomes[i] == Outcome::Succeeded,
        place < outcomes.len() ==> outcomes[place] == Outcome::Failed,
    ensures
        leading_successes(outcomes) == place,
{
    lemma_leading_successes(outcomes);
}

/// How the leading successes grow with the history: an outcome adds to them
/// when it is a success and so is all that came before it.
proof fn lemma_leading_successes_grow(outcomes: Seq<Outcome>)
    requires
        outcomes.len() > 0,
    ensures
        leading_successes(outcomes) == if all_succeeded(outcomes.drop_last()) && outcomes.last()
            == Outcome::Succeeded {
            outcomes.len()
        } else {
            leading_successes(outcomes.drop_last())
        },
{
    let front = outcomes.drop_last();
    lemma_leading_successes(front);
    let place = leading_successes(front) as int;
    assert forall|i: int| 0 <= i < place implies outcomes[i] == Outcome::Succeeded by {
        assert(outcomes[i] == front[i]);
    }
    if place < front.len() {
        assert(outcomes[place] == front[place]);
        lemma_first_failure(outcomes, place);
    } else if outcomes.last() == Outcome::Succeeded {
        lemma_first_failure(outcomes, outcomes.len() as int);
    } else {
        lemma_first_failure(outcomes, place);
    }
}

/// Every step leads from a well-formed state to a well-formed state of the
/// same build, and never takes a registration back.
pub proof fn lemma_step_keeps_wf(state: State, outcome: Outcome)
    requires
        state.wf(),
    ensures
        state.after(outcome).wf(),
        state.after(outcome).debug == state.debug,
        state.after(outcome).registered >= state.registered,
{
}

/// `Finished` and `Aborted` are final: no history leads out of them.
pub proof fn lemma_final_phases_stay(state: State, outcomes: Seq<Outcome>)
    requires
        state.phase == Phase::Finished || state.phase == Phase::Aborted,
    ensures
        state.after_all(outcomes) == state,
    decreases outcomes.len(),
{
    if outcomes.len() > 0 {
        lemma_final_phases_stay(state, outcomes.drop_last());
    }
}

/// Step by step and in closed form, a history leads to the same state, and
/// that state is well formed.
pub proof fn lemma_history(debug: bool, outcomes: Seq<Outcome>)
    ensures
        State::initial(debug).after_all(outcomes) == state_after(debug, outcomes),
        state_after(debug, outcomes).wf(),
    decreases outcomes.len(),
{
    if outcomes.len() > 0 {
        let front = outcomes.drop_last();
        lemma_history(debug, front);
        lemma_leading_successes(front);
        lemma_leading_successes_grow(outcomes);
    }
}

/// The history that leads to `state` by the shortest way: a success for
/// each registered plug-in, then the outcome that ended the event loop or
/// start-up, if one did.
pub open spec fn shortest_history(state: State) -> Seq<Outcome> {
    let successes = Seq::new(state.registered, |i: int| Outcome::Succeeded);
    match state.phase {
        Phase::Registering | Phase::Running => successes,
        Phase::Finished => successes.push(Outcome::Succeeded),
        Phase::Aborted => successes.push(Outcome::Failed),
    }
}

/// The well-formed states are the ones that start-up can be in: each has a
/// history that leads to it.
pub proof fn lemma_every_state_has_a_history(state: State)
    requires
        state.wf(),
    ensures
        State::initial(state.debug).after_all(shortest_history(state)) == state,
{
    let history = shortest_history(state);
    lemma_history(state.debug, history);
    if state.phase == Phase::Aborted {
        lemma_first_failure(history, state.registered as int);
    } else {
        lemma_first_failure(history, history.len() as int);
    }
}

/// The event loop runs exactly when one outcome has come in for each
/// plug-in and each was a success. A history with a failure anywhere in it
/// does not end in `Running`.
pub proof fn lemma_running_needs_every_plugin(debug: bool, outcomes: Seq<Outcome>)
    ensures
        State::initial(debug).after_all(outcomes).phase == Phase::Running <==> outcomes.len()
            == registration_order(debug).len() && all_succeeded(outcomes),
{
    lemma_history(debug, outcomes);
    lemma_leading_successes(outcomes);
}

/// If a registration fails, start-up never reaches `Running`: not before
/// the failure, while plug-ins are still being registered, and not after it,
/// when start-up is `Aborted` whatever else is reported.
///
/// `failed` is the place of the failed registration in the history and
/// `count` the length of any beginning of the history.
pub proof fn lemma_failed_registration_never_runs(
    debug: bool,
    outcomes: Seq<Outcome>,
    failed: int,
    count: int,
)
    requires
        0 <= failed < outcomes.len(),
        0 <= count <= outcomes.len(),
        outcomes[failed] == Outcome::Failed,
        state_at(debug, outcomes, failed).phase == Phase::Registering,
    ensures
        state_at(debug, outcomes, count).phase != Phase::Running,
        count <= failed ==> state_at(debug, outcomes, count).phase == Phase::Registering,
        count > failed ==> state_at(debug, outcomes, count).phase == Phase::Aborted,
{
    let before = outcomes.take(failed);
    let seen = outcomes.take(count);
    lemma_history(debug, before);
    lemma_history(debug, seen);
    lemma_leading_successes(before);
    assert forall|i: int| 0 <= i < failed implies outcomes[i] == Outcome::Succeeded by {
        assert(outcomes[i] == before[i]);
    }
    if count <= failed {
        lemma_first_failure(seen, count);
    } else {
        lemma_first_failure(seen, failed);
    }
}

/// As long as nothing fails, the actions follow the registration order and
/// end with the event loop: after `count` successes the plug-in at place
/// `count` is due, and after as many successes as there are plug-ins the
/// event loop is.
pub proof fn lemma_actions_follow_order(debug: bool, outcomes: Seq<Outcome>)
    requires
        all_succeeded(outcomes),
        outcomes.len() <= registration_order(debug).len(),
    ensures
        outcomes.len() < registration_order(debug).len() ==> State::initial(debug).after_all(
            outcomes,
        ).action() == Action::Register(registration_order(debug)[outcomes.len() as int]),
        outcomes.len() == registration_order(debug).len() ==> State::initial(debug).after_all(
            outcomes,
        ).action() == Action::RunEventLoop,
{
    lemma_history(debug, outcomes);
    lemma_leading_successes(outcomes);
}

/// The log plug-in is due first or never: its registration is asked for only
/// in a debug build and only before any outcome has come in. A release build
/// never asks for it.
pub proof fn lemma_log_is_due_first_or_never(debug: bool, outcomes: Seq<Outcome>)
    requires
        State::initial(debug).after_all(outcomes).action() matches Action::Register(plugin)
            && plugin is Log,
    ensures
        debug,
        outcomes.len() == 0,
{
    lemma_history(debug, outcomes);
    lemma_leading_successes(outcomes);
}

} // verus!
