//! The launch orchestrator: validate the profile, gate on elevation,
//! plan the launch for the selected strategy, classify what the retry
//! engine achieved, and report a terminal outcome. The caller performs
//! the spawn, the platform calls and the waits between decisions.

use crate::apply::{apply_step, spec_apply_step, ApplyState, AttemptObservation};
use crate::mask::{compute_mask, spec_mask, MaskComputation, MaskError};
use crate::profile::{spec_validate, validate_profile, LaunchProfile, ValidationError};
use crate::retry::{
    backoff_delay, retry_decide, spec_backoff, spec_classify, AttemptOutcome, RetryDirective,
    RetryResult,
};
use crate::strategy::{
    arg_views,
    build_wrapper_command,
    spec_wrapper_args,
    spec_wrapper_program,
    Platform,
    WrapperCommand,
};
use vstd::prelude::*;

verus! {

/// The retry budget used when the profile does not name one.
pub const DEFAULT_RETRY_ATTEMPTS: usize = 5;

/// The delay before the first attempt, in milliseconds; later attempts
/// back off exponentially from it.
pub const INITIAL_DELAY_MS: u64 = 100;

/// The ceiling on any single backoff delay, in milliseconds.
pub const DELAY_CAP_MS: u64 = 1000;

/// Why an attempt failed outright.
#[derive(Clone, Copy, Debug, PartialEq, Eq, Structural)]
pub enum FailureCause {
    /// The target could not be spawned; nothing further was attempted.
    SpawnFailed,
    /// The final attempt to apply an attribute failed with an unexpected
    /// platform error.
    AttributeApplyFailed,
}

/// The outcome of the constraint-application phase.
#[derive(Clone, Copy, Debug, PartialEq, Eq, Structural)]
pub enum LaunchAttemptResult {
    /// Everything asked for was applied.
    Success,
    /// The process runs; the named subset of attributes stands applied.
    PartialSuccess { affinity_applied: bool, priority_applied: bool },
    /// The spawned process went away before the constraints could be
    /// applied — commonly a launcher that handed off to a child.
    Exited,
    Failed { cause: FailureCause },
}

/// The terminal classification handed to the interface layer.
#[derive(Clone, Copy, Debug, PartialEq, Eq, Structural)]
pub enum TerminalOutcome {
    LaunchedFully,
    LaunchedPartially(LaunchAttemptResult),
    ValidationFailed(ValidationError),
    ElevationDeclined(crate::elevation::ElevationError),
}

/// A planned launch, everything decided and nothing yet performed.
pub enum LaunchPlan {
    /// Spawn unconstrained, then drive the apply operation through the
    /// retry engine with this mask and schedule.
    Direct { mask: u64, ignored: Vec<usize>, retry_budget: usize, initial_delay_ms: u64 },
    /// Spawn this wrapper invocation; nothing to apply afterward.
    Wrapper { command: WrapperCommand },
}

/// The retry budget a profile asks for: its own, or the default.
pub open spec fn spec_retry_budget(profile: LaunchProfile) -> usize {
    match profile.retry_attempts {
        Some(n) => n,
        None => DEFAULT_RETRY_ATTEMPTS,
    }
}

/// Plan the launch of a validated profile on the given platform.
///
/// On a direct-control platform the affinity mask is computed for the
/// platform word, and `InvalidMask` is the only failure, exactly when no
/// requested CPU index lies inside the word; on a wrapper-delegation
/// platform the wrapper invocation is built and planning cannot fail.
pub fn plan_launch(profile: &LaunchProfile, platform: Platform, width: u32, extra: &Vec<String>)
    -> (r: Result<LaunchPlan, MaskError>)
    requires
        1 <= width <= 64,
    ensures
        match r {
            Ok(plan) => match plan {
                LaunchPlan::Direct { mask, ignored, retry_budget, initial_delay_ms } => platform
                    == Platform::DirectControl && mask == spec_mask(profile.cpus@, width) && mask
                    != 0 && ignored@ == profile.cpus@.filter(
                    |i: usize| !crate::mask::in_word(i, width),
                ) && retry_budget == spec_retry_budget(*profile) && initial_delay_ms
                    == INITIAL_DELAY_MS,
                LaunchPlan::Wrapper { command } => platform == Platform::WrapperDelegation
                    && command.program@ == spec_wrapper_program(*profile) && arg_views(
                    command.args@,
                ) == spec_wrapper_args(*profile, extra@),
            },
            Err(e) => platform == Platform::DirectControl && e == MaskError::InvalidMask
                && spec_mask(profile.cpus@, width) == 0,
        },
{
    match platform {
        Platform::DirectControl => {
            let MaskComputation { mask, ignored } = compute_mask(&profile.cpus, width)?;
            let retry_budget = match profile.retry_attempts {
                Some(n) => n,
                None => DEFAULT_RETRY_ATTEMPTS,
            };
            Ok(
                LaunchPlan::Direct {
                    mask,
                    ignored,
                    retry_budget,
                    initial_delay_ms: INITIAL_DELAY_MS,
                },
            )
        },
        Platform::WrapperDelegation => {
            let command = build_wrapper_command(profile, extra);
            Ok(LaunchPlan::Wrapper { command })
        },
    }
}

/// What the retry engine's terminal state means for the launch.
///
/// Full success is achieved affinity together with the priority the
/// profile asked for (or asked for none); an achieved run whose priority
/// never confirmed is a partial success, as is an exhausted budget with
/// the process still running; an exhausted budget over a process that
/// went away is `Exited`; a failed run is an attribute-apply failure.
pub open spec fn spec_classify_application(
    result: RetryResult,
    state: ApplyState,
    wants_priority: bool,
    process_exited: bool,
) -> LaunchAttemptResult {
    match result {
        RetryResult::Achieved => {
            if !wants_priority || state.priority_confirmed {
                LaunchAttemptResult::Success
            } else {
                LaunchAttemptResult::PartialSuccess {
                    affinity_applied: state.affinity_confirmed,
                    priority_applied: state.priority_confirmed,
                }
            }
        },
        RetryResult::NotAchieved => {
            if process_exited {
                LaunchAttemptResult::Exited
            } else {
                LaunchAttemptResult::PartialSuccess {
                    affinity_applied: state.affinity_confirmed,
                    priority_applied: state.priority_confirmed,
                }
            }
        },
        RetryResult::Failed => LaunchAttemptResult::Failed {
            cause: FailureCause::AttributeApplyFailed,
        },
    }
}

/// Classify the constraint-application phase.
pub fn classify_application(
    result: RetryResult,
    state: ApplyState,
    wants_priority: bool,
    process_exited: bool,
) -> (r: LaunchAttemptResult)
    ensures
        r == spec_classify_application(result, state, wants_priority, process_exited),
{
    match result {
        RetryResult::Achieved => {
            if !wants_priority || state.priority_confirmed {
                LaunchAttemptResult::Success
            } else {
                LaunchAttemptResult::PartialSuccess {
                    affinity_applied: state.affinity_confirmed,
                    priority_applied: state.priority_confirmed,
                }
            }
        },
        RetryResult::NotAchieved => {
            if process_exited {
                LaunchAttemptResult::Exited
            } else {
                LaunchAttemptResult::PartialSuccess {
                    affinity_applied: state.affinity_confirmed,
                    priority_applied: state.priority_confirmed,
                }
            }
        },
        RetryResult::Failed => LaunchAttemptResult::Failed {
            cause: FailureCause::AttributeApplyFailed,
        },
    }
}

/// The terminal outcome of a launch whose spawn went through: fully
/// launched exactly when everything asked for was applied, partially
/// otherwise.
pub fn terminal_outcome(attempt: LaunchAttemptResult) -> (r: TerminalOutcome)
    ensures
        r == if attempt == LaunchAttemptResult::Success {
            TerminalOutcome::LaunchedFully
        } else {
            TerminalOutcome::LaunchedPartially(attempt)
        },
{
    match attempt {
        LaunchAttemptResult::Success => TerminalOutcome::LaunchedFully,
        _ => TerminalOutcome::LaunchedPartially(attempt),
    }
}

/// The state the apply operation has reached after its first `k`
/// attempts, each attempt `j` deciding on observation `obs[j-1]`.
pub open spec fn spec_apply_states(wants_priority: bool, obs: Seq<AttemptObservation>, k: int)
    -> ApplyState
    decreases k,
{
    if k <= 0 {
        ApplyState { affinity_confirmed: false, priority_confirmed: false }
    } else {
        spec_apply_step(spec_apply_states(wants_priority, obs, k - 1), wants_priority, obs[k - 1]).0
    }
}

/// What attempt `k` (1-based) of the apply operation reports.
pub open spec fn spec_attempt_outcome(wants_priority: bool, obs: Seq<AttemptObservation>, k: int)
    -> AttemptOutcome {
    spec_apply_step(spec_apply_states(wants_priority, obs, k - 1), wants_priority, obs[k - 1]).1
}

/// A finished constraint-application phase: the attempts that ran, the
/// delay before each, the attribute state reached and the retry engine's
/// terminal result.
pub struct ApplicationRun {
    pub attempts_made: usize,
    pub delays: Vec<u64>,
    pub state: ApplyState,
    pub result: RetryResult,
}

/// Drive the apply operation through the retry engine, over a scripted
/// sequence of per-attempt observations (what the platform calls of
/// attempt `k+1` would report). The caller performs the waits and the
/// calls between decisions.
///
/// At most `budget` attempts run and none follows a successful one; the
/// delay before each attempt is the backoff value; the attribute state
/// is the fold of the apply step over the observations reached; and the
/// terminal result classifies the last attempt, which on an achieved run
/// always leaves affinity confirmed. A budget of zero makes no attempt
/// and is simply "not achieved".
pub fn drive_application(
    budget: usize,
    initial_delay: u64,
    cap: u64,
    wants_priority: bool,
    observations: &Vec<AttemptObservation>,
) -> (r: ApplicationRun)
    requires
        budget <= observations.len(),
        initial_delay <= cap,
        cap <= u64::MAX / 2,
    ensures
        r.attempts_made <= budget,
        r.delays@.len() == r.attempts_made,
        forall|k: int|
            0 <= k < r.attempts_made ==> (#[trigger] r.delays@[k]) as int == spec_backoff(
                initial_delay,
                k + 1,
                cap,
            ),
        forall|k: int| 0 <= k < r.attempts_made ==> (#[trigger] r.delays@[k]) <= cap,
        forall|k: int|
            1 <= k < r.attempts_made ==> spec_attempt_outcome(wants_priority, observations@, k)
                != AttemptOutcome::Success,
        r.state == spec_apply_states(wants_priority, observations@, r.attempts_made as int),
        budget == 0 ==> r.attempts_made == 0 && r.result == RetryResult::NotAchieved,
        budget >= 1 ==> {
            &&& 1 <= r.attempts_made
            &&& r.result == spec_classify(
                spec_attempt_outcome(wants_priority, observations@, r.attempts_made as int),
            )
            &&& (r.result == RetryResult::Achieved || r.attempts_made == budget)
        },
        r.result == RetryResult::Achieved ==> r.state.affinity_confirmed,
{
    let mut delays: Vec<u64> = Vec::new();
    let mut state = ApplyState::initial();
    if budget == 0 {
        return ApplicationRun {
            attempts_made: 0,
            delays,
            state,
            result: RetryResult::NotAchieved,
        };
    }
    let mut attempt: usize = 1;
    loop
        invariant
            1 <= attempt <= budget <= observations@.len(),
            initial_delay <= cap,
            cap <= u64::MAX / 2,
            delays@.len() == attempt - 1,
            forall|k: int|
                0 <= k < attempt - 1 ==> (#[trigger] delays@[k]) as int == spec_backoff(
                    initial_delay,
                    k + 1,
                    cap,
                ),
            forall|k: int|
                1 <= k < attempt ==> spec_attempt_outcome(wants_priority, observations@, k)
                    != AttemptOutcome::Success,
            state == spec_apply_states(wants_priority, observations@, attempt - 1),
        decreases budget - attempt,
    {
        let d = backoff_delay(initial_delay, attempt, cap);
        delays.push(d);
        let obs = observations[attempt - 1];
        let (next_state, outcome) = apply_step(state, wants_priority, obs);
        state = next_state;
        match retry_decide(attempt, budget, outcome) {
            RetryDirective::Stop(res) => {
                proof {
                    crate::apply::lemma_apply_step_success(
                        spec_apply_states(wants_priority, observations@, attempt - 1),
                        wants_priority,
                        obs,
                    );
                }
                return ApplicationRun { attempts_made: attempt, delays, state, result: res };
            },
            RetryDirective::Continue => {
                attempt = attempt + 1;
            },
        }
    }
}

/// Everything decided before anything is performed.
pub enum PreLaunchDecision {
    /// The profile was rejected; nothing is spawned and the interactive
    /// layer offers remediation.
    Rejected(ValidationError),
    /// The mask came out zero; nothing is spawned.
    MaskFailed(MaskError),
    /// The requested priority needs elevated rights this process lacks:
    /// the elevation negotiator must run its round trip instead of a
    /// spawn.
    NeedsElevation,
    /// Spawn according to this plan.
    Proceed { plan: LaunchPlan, cpu_warning: bool },
}

/// Whether this pre-launch examination ends in a spawn plan.
pub open spec fn spec_proceeds(
    profile: LaunchProfile,
    path_exists: bool,
    system_cpus: usize,
    platform: Platform,
    is_elevated: bool,
    width: u32,
) -> bool {
    &&& spec_validate(profile@, path_exists, system_cpus) is Ok
    &&& !(platform == Platform::DirectControl && crate::elevation::spec_needs_elevation(
        profile.priority,
        is_elevated,
    ))
    &&& !(platform == Platform::DirectControl && spec_mask(profile.cpus@, width) == 0)
}

/// Examine a launch request in order: validation first, then — on the
/// platform that gates high scheduling classes — the elevation gate,
/// then the plan itself. A request that fails validation is never
/// planned; one that needs elevation is never spawned by this process;
/// an all-outside mask stops everything before any spawn.
pub fn pre_launch(
    profile: &LaunchProfile,
    path_exists: bool,
    system_cpus: usize,
    platform: Platform,
    is_elevated: bool,
    width: u32,
    extra: &Vec<String>,
) -> (r: PreLaunchDecision)
    requires
        1 <= width <= 64,
    ensures
        match r {
            PreLaunchDecision::Rejected(e) => spec_validate(profile@, path_exists, system_cpus)
                == Err::<crate::profile::ValidationReport, ValidationError>(e),
            PreLaunchDecision::NeedsElevation => spec_validate(profile@, path_exists, system_cpus)
                is Ok && platform == Platform::DirectControl
                && crate::elevation::spec_needs_elevation(profile.priority, is_elevated),
            PreLaunchDecision::MaskFailed(e) => spec_validate(profile@, path_exists, system_cpus)
                is Ok && !(platform == Platform::DirectControl
                && crate::elevation::spec_needs_elevation(profile.priority, is_elevated))
                && platform == Platform::DirectControl && e == MaskError::InvalidMask && spec_mask(
                profile.cpus@,
                width,
            ) == 0,
            PreLaunchDecision::Proceed { plan, cpu_warning } => {
                &&& spec_proceeds(*profile, path_exists, system_cpus, platform, is_elevated, width)
                &&& cpu_warning == crate::profile::spec_any_at_or_above(
                    profile.cpus@,
                    system_cpus,
                )
                &&& match plan {
                    LaunchPlan::Direct { mask, ignored, retry_budget, initial_delay_ms } =>
                        platform == Platform::DirectControl && mask == spec_mask(
                        profile.cpus@,
                        width,
                    ) && mask != 0 && retry_budget == spec_retry_budget(*profile)
                        && initial_delay_ms == INITIAL_DELAY_MS,
                    LaunchPlan::Wrapper { command } => platform == Platform::WrapperDelegation
                        && command.program@ == spec_wrapper_program(*profile) && arg_views(
                        command.args@,
                    ) == spec_wrapper_args(*profile, extra@),
                }
            },
        },
        (r is Proceed) == spec_proceeds(
            *profile,
            path_exists,
            system_cpus,
            platform,
            is_elevated,
            width,
        ),
{
    let report = match validate_profile(profile, path_exists, system_cpus) {
        Ok(rep) => rep,
        Err(e) => {
            return PreLaunchDecision::Rejected(e);
        },
    };
    if matches!(platform, Platform::DirectControl) {
        let needs = match &profile.priority {
            Some(p) => p.requires_elevation() && !is_elevated,
            None => false,
        };
        if needs {
            return PreLaunchDecision::NeedsElevation;
        }
    }
    match plan_launch(profile, platform, width, extra) {
        Ok(plan) => PreLaunchDecision::Proceed { plan, cpu_warning: report.cpu_warning },
        Err(e) => PreLaunchDecision::MaskFailed(e),
    }
}

} // verus!
