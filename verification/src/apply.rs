//! The idempotent "try apply" operation that the retry engine drives on
//! direct-control platforms: set the affinity mask and, when asked for,
//! the priority class of a process that may not be stable yet.
//!
//! Which of the two attributes are already confirmed is tracked in an
//! explicit state record, so a repeated invocation only attempts the
//! unconfirmed subset and never double-applies conflicting state. The
//! platform calls themselves happen outside; one attempt's observations
//! come back in a record and the decision here is pure.

use crate::retry::AttemptOutcome;
use vstd::prelude::*;

verus! {

/// Which of the two attributes have been confirmed so far.
#[derive(Clone, Copy, Debug, PartialEq, Eq, Structural)]
pub struct ApplyState {
    pub affinity_confirmed: bool,
    pub priority_confirmed: bool,
}

impl ApplyState {
    /// The state before any attempt: nothing confirmed.
    pub fn initial() -> (r: ApplyState)
        ensures
            !r.affinity_confirmed,
            !r.priority_confirmed,
    {
        ApplyState { affinity_confirmed: false, priority_confirmed: false }
    }
}

/// What one platform call reported.
#[derive(Clone, Copy, Debug, PartialEq, Eq, Structural)]
pub enum CallReport {
    /// The call went through; verification may still have read back a
    /// different value, which is accepted rather than retried.
    Applied,
    /// The call was refused by the platform.
    Refused,
}

/// Everything one attempt observed. Fields for calls that were not to be
/// made on this attempt are ignored by the decision.
#[derive(Clone, Copy, Debug, PartialEq, Eq, Structural)]
pub struct AttemptObservation {
    /// A handle to the target process could be obtained.
    pub handle_opened: bool,
    /// Result of the set-affinity call, where one was to be made.
    pub affinity_call: CallReport,
    /// Result of the set-priority call, where one was to be made.
    pub priority_call: CallReport,
}

/// Which attributes the next attempt should try: exactly the unconfirmed
/// subset, priority only where the profile asks for one.
pub fn pending_targets(state: ApplyState, wants_priority: bool) -> (r: (bool, bool))
    ensures
        r.0 == !state.affinity_confirmed,
        r.1 == (wants_priority && !state.priority_confirmed),
{
    (!state.affinity_confirmed, wants_priority && !state.priority_confirmed)
}

/// The state and outcome one attempt yields.
///
/// No handle means the process is not ready: nothing changes and the
/// attempt reports not-ready. A refused affinity call is the unexpected
/// failure the retry engine surfaces on the last attempt. Otherwise
/// affinity stands confirmed (a mismatched read-back is accepted, not
/// retried), priority becomes confirmed exactly when its call went
/// through, and the attempt reports success as soon as affinity is
/// confirmed — priority is best effort within the remaining attempts.
pub open spec fn spec_apply_step(
    state: ApplyState,
    wants_priority: bool,
    obs: AttemptObservation,
) -> (ApplyState, AttemptOutcome) {
    if !obs.handle_opened {
        (state, AttemptOutcome::NotReady)
    } else if !state.affinity_confirmed && obs.affinity_call == CallReport::Refused {
        (state, AttemptOutcome::Error)
    } else {
        let next = ApplyState {
            affinity_confirmed: true,
            priority_confirmed: state.priority_confirmed || (wants_priority && obs.priority_call
                == CallReport::Applied),
        };
        (next, AttemptOutcome::Success)
    }
}

/// Decide one attempt of the apply operation from its observations.
pub fn apply_step(state: ApplyState, wants_priority: bool, obs: AttemptObservation) -> (r: (
    ApplyState,
    AttemptOutcome,
))
    ensures
        r == spec_apply_step(state, wants_priority, obs),
{
    if !obs.handle_opened {
        (state, AttemptOutcome::NotReady)
    } else if !state.affinity_confirmed && matches!(obs.affinity_call, CallReport::Refused) {
        (state, AttemptOutcome::Error)
    } else {
        let priority_now = state.priority_confirmed || (wants_priority && matches!(
            obs.priority_call,
            CallReport::Applied,
        ));
        (
            ApplyState { affinity_confirmed: true, priority_confirmed: priority_now },
            AttemptOutcome::Success,
        )
    }
}

/// Idempotence of the apply operation: an attribute once confirmed stays
/// confirmed, whatever a later attempt observes, so repeating the
/// operation up to the budget never un-applies or conflicts with what
/// already stands.
pub proof fn lemma_apply_step_monotone(
    state: ApplyState,
    wants_priority: bool,
    obs: AttemptObservation,
)
    ensures
        state.affinity_confirmed ==> spec_apply_step(
            state,
            wants_priority,
            obs,
        ).0.affinity_confirmed,
        state.priority_confirmed ==> spec_apply_step(
            state,
            wants_priority,
            obs,
        ).0.priority_confirmed,
{
}

/// The operation reports success to the retry engine exactly when a
/// handle was had and the affinity call stands applied (now or from an
/// earlier attempt); a successful attempt always leaves affinity
/// confirmed, priority being best effort.
pub proof fn lemma_apply_step_success(
    state: ApplyState,
    wants_priority: bool,
    obs: AttemptObservation,
)
    ensures
        (spec_apply_step(state, wants_priority, obs).1 == AttemptOutcome::Success) <==> (
        obs.handle_opened && (state.affinity_confirmed || obs.affinity_call
            == CallReport::Applied)),
        spec_apply_step(state, wants_priority, obs).1 == AttemptOutcome::Success
            ==> spec_apply_step(state, wants_priority, obs).0.affinity_confirmed,
{
}

} // verus!
