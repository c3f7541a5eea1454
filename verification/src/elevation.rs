//! The elevation negotiator: when a requested priority level is gated
//! behind elevated privilege and the current process lacks it, a
//! transient handoff record is persisted and a privileged re-invocation
//! of the whole program is issued; the record is deleted by the elevated
//! child, or by the issuing process when the request itself is rejected.

use crate::profile::LaunchProfile;
use crate::priority::ProcessPriority;
use vstd::prelude::*;

verus! {

/// The states of the negotiation, in order of traversal.
#[derive(Clone, Copy, Debug, PartialEq, Eq, Structural)]
pub enum NegotiatorState {
    /// Nothing examined yet.
    Unchecked,
    /// The current rights suffice for the requested priority; no round
    /// trip is needed.
    Sufficient,
    /// Elevation is needed and has not been resolved: a handoff record
    /// is to be persisted and a privileged re-invocation issued.
    InsufficientPending,
    /// The re-invocation was accepted; the issuing process terminates
    /// without waiting for the elevated child.
    Elevated,
    /// The re-invocation was rejected; the handoff record has been
    /// deleted and a fallback is offered.
    Cleaned,
}

/// Why a privileged re-invocation request was rejected, so the fallback
/// can give specific guidance.
#[derive(Clone, Copy, Debug, PartialEq, Eq, Structural)]
pub enum ElevationError {
    /// The user declined or cancelled the privilege prompt.
    Declined,
    /// The program binary to re-invoke was not found.
    TargetMissing,
    /// The platform ran out of memory or resources.
    ResourceExhaustion,
    /// Any other platform failure, with its raw code.
    Unknown(isize),
}

/// Whether a round trip is owed: the requested priority (if any) is
/// gated and the current process lacks elevated rights.
pub open spec fn spec_needs_elevation(priority: Option<ProcessPriority>, is_elevated: bool) -> bool {
    match priority {
        Some(p) => p.spec_rank() >= 4 && !is_elevated,
        None => false,
    }
}

/// The first transition: from `Unchecked` to `Sufficient` when the
/// current rights cover the request, and to `InsufficientPending` when
/// they do not.
pub fn check_privilege(
    state: NegotiatorState,
    priority: Option<ProcessPriority>,
    is_elevated: bool,
) -> (r: NegotiatorState)
    requires
        state == NegotiatorState::Unchecked,
    ensures
        r == if spec_needs_elevation(priority, is_elevated) {
            NegotiatorState::InsufficientPending
        } else {
            NegotiatorState::Sufficient
        },
{
    let needs = match priority {
        Some(p) => p.requires_elevation() && !is_elevated,
        None => false,
    };
    if needs {
        NegotiatorState::InsufficientPending
    } else {
        NegotiatorState::Sufficient
    }
}

/// The second transition: from `InsufficientPending` to `Elevated` when
/// the platform accepted the re-invocation, and to `Cleaned` when it was
/// rejected (the caller deletes the handoff record on that branch).
pub fn resolve_relaunch(state: NegotiatorState, accepted: bool) -> (r: NegotiatorState)
    requires
        state == NegotiatorState::InsufficientPending,
    ensures
        r == if accepted {
            NegotiatorState::Elevated
        } else {
            NegotiatorState::Cleaned
        },
{
    if accepted {
        NegotiatorState::Elevated
    } else {
        NegotiatorState::Cleaned
    }
}

/// The rejection category a raw platform code denotes. The platform's
/// launch call reports success with any value above 32; the small codes
/// are documented individually.
pub open spec fn spec_classify_relaunch_code(code: isize) -> Result<(), ElevationError> {
    if code > 32 {
        Ok(())
    } else if code == 5 {
        Err(ElevationError::Declined)
    } else if code == 2 || code == 3 {
        Err(ElevationError::TargetMissing)
    } else if code == 0 || code == 8 {
        Err(ElevationError::ResourceExhaustion)
    } else {
        Err(ElevationError::Unknown(code))
    }
}

/// Classify the result code of the platform's privileged-launch call:
/// success above 32; access denied (commonly a declined prompt) is 5;
/// file and path not found are 2 and 3; out of memory or resources are 0
/// and 8; everything else is unknown.
pub fn classify_relaunch_code(code: isize) -> (r: Result<(), ElevationError>)
    ensures
        r == spec_classify_relaunch_code(code),
{
    if code > 32 {
        Ok(())
    } else if code == 5 {
        Err(ElevationError::Declined)
    } else if code == 2 || code == 3 {
        Err(ElevationError::TargetMissing)
    } else if code == 0 || code == 8 {
        Err(ElevationError::ResourceExhaustion)
    } else {
        Err(ElevationError::Unknown(code))
    }
}

/// The transient record that carries launch intent across the elevation
/// round trip. Its lifetime is bounded to the round trip: it is created
/// before the re-invocation and destroyed by the elevated child, or by
/// the issuing process when the request fails.
pub struct ElevationHandoff {
    /// The name under which the profile travels through the persisted
    /// store.
    pub profile_name: String,
    /// Whether the name is a synthesized transient one that the elevated
    /// child must clean up.
    pub cleanup_required: bool,
}

/// Build the handoff for a round trip: a durable profile name is used as
/// it stands; without one, a transient name is synthesized from the
/// process identity and tagged for cleanup. `cleanup_required` holds
/// exactly when the chosen name carries the transient tag.
pub fn make_handoff(profile_name: Option<&String>, pid: u64) -> (r: ElevationHandoff)
    ensures
        match profile_name {
            Some(n) => r.profile_name@ == n@,
            None => r.profile_name@ == crate::store::spec_transient_tag()
                + crate::numfmt::spec_decimal(pid as nat),
        },
        r.cleanup_required == crate::store::spec_is_transient(r.profile_name@),
{
    match profile_name {
        Some(n) => {
            let cleanup = crate::store::is_transient_name(n);
            ElevationHandoff { profile_name: n.clone(), cleanup_required: cleanup }
        },
        None => {
            let name = crate::store::temp_profile_name(pid);
            ElevationHandoff { profile_name: name, cleanup_required: true }
        },
    }
}

/// The command-line parameters handed to the privileged re-invocation:
/// the profile name first, then the cleanup flag that tells the elevated
/// child to delete a transient record after use, then the pass-through
/// arguments verbatim.
pub fn relaunch_parameters(handoff: &ElevationHandoff, args: &Vec<String>) -> (r: Vec<String>)
    ensures
        r@.len() == 2 + args@.len(),
        r@[0]@ == handoff.profile_name@,
        r@[1]@ == "--cleanup-temp"@,
        forall|j: int| 0 <= j < args@.len() ==> (#[trigger] r@[j + 2])@ == (#[trigger] args@[j])@,
{
    let mut params: Vec<String> = Vec::new();
    params.push(handoff.profile_name.clone());
    let mut flag = String::new();
    flag.append("--cleanup-temp");
    proof {
        assert(Seq::<char>::empty() + "--cleanup-temp"@ =~= "--cleanup-temp"@);
    }
    params.push(flag);
    let mut j: usize = 0;
    while j < args.len()
        invariant
            0 <= j <= args@.len(),
            params@.len() == 2 + j,
            params@[0]@ == handoff.profile_name@,
            params@[1]@ == "--cleanup-temp"@,
            forall|t: int| 0 <= t < j ==> (#[trigger] params@[t + 2])@ == (#[trigger] args@[t])@,
        decreases args@.len() - j,
    {
        params.push(args[j].clone());
        j = j + 1;
    }
    params
}

} // verus!
