//! Launch profiles: an executable path, the CPU set to pin it to, an
//! optional priority level and an optional retry budget; and the
//! validation that precedes any launch attempt.

use crate::priority::ProcessPriority;
use vstd::prelude::*;

verus! {

/// A launch profile, immutable once handed to the launch logic. The
/// caller owns persistence; the path travels as text here and is resolved
/// against the file system by the caller.
#[derive(Clone, Debug)]
pub struct LaunchProfile {
    pub path: String,
    pub cpus: Vec<usize>,
    pub priority: Option<ProcessPriority>,
    pub retry_attempts: Option<usize>,
}

/// The mathematical image of a profile.
pub struct LaunchProfileView {
    pub path: Seq<char>,
    pub cpus: Seq<usize>,
    pub priority: Option<ProcessPriority>,
    pub retry_attempts: Option<usize>,
}

impl View for LaunchProfile {
    type V = LaunchProfileView;

    open spec fn view(&self) -> LaunchProfileView {
        LaunchProfileView {
            path: self.path@,
            cpus: self.cpus@,
            priority: self.priority,
            retry_attempts: self.retry_attempts,
        }
    }
}

/// Why a profile was rejected before launch. Validation failure is always
/// recoverable: it is surfaced to the interactive layer, never fatal.
#[derive(Clone, Copy, Debug, PartialEq, Eq, Structural)]
pub enum ValidationError {
    /// The executable path does not resolve to an existing file.
    MissingExecutable,
    /// The profile has no CPU cores configured.
    EmptyCpuSet,
}

/// What a successful validation reports back.
#[derive(Clone, Copy, Debug, PartialEq, Eq, Structural)]
pub struct ValidationReport {
    /// Some requested index is at or above the live system's logical CPU
    /// count. A warning only: the platform ignores the excess.
    pub cpu_warning: bool,
}

/// Whether some entry of `cpus` is at or above `limit`.
pub open spec fn spec_any_at_or_above(cpus: Seq<usize>, limit: usize) -> bool {
    exists|k: int| 0 <= k < cpus.len() && (#[trigger] cpus[k]) >= limit
}

/// The outcome validation owes for given inputs: a missing executable is
/// reported first, then an empty CPU set; otherwise the profile passes,
/// with a warning exactly when it names a CPU the system does not have.
pub open spec fn spec_validate(
    profile: LaunchProfileView,
    path_exists: bool,
    system_cpus: usize,
) -> Result<ValidationReport, ValidationError> {
    if !path_exists {
        Err(ValidationError::MissingExecutable)
    } else if profile.cpus.len() == 0 {
        Err(ValidationError::EmptyCpuSet)
    } else {
        Ok(ValidationReport { cpu_warning: spec_any_at_or_above(profile.cpus, system_cpus) })
    }
}

/// Validate a profile against a known system CPU count.
///
/// `path_exists` is the caller's answer to whether the executable path
/// resolves to an existing file.
pub fn validate_profile(profile: &LaunchProfile, path_exists: bool, system_cpus: usize) -> (r:
    Result<ValidationReport, ValidationError>)
    ensures
        r == spec_validate(profile@, path_exists, system_cpus),
{
    if !path_exists {
        return Err(ValidationError::MissingExecutable);
    }
    if profile.cpus.len() == 0 {
        return Err(ValidationError::EmptyCpuSet);
    }
    let mut warning = false;
    let mut k: usize = 0;
    while k < profile.cpus.len()
        invariant
            k <= profile.cpus@.len(),
            warning == spec_any_at_or_above(profile.cpus@.subrange(0, k as int), system_cpus),
        decreases profile.cpus@.len() - k,
    {
        let cpu = profile.cpus[k];
        proof {
            let prefix = profile.cpus@.subrange(0, k as int);
            let next = profile.cpus@.subrange(0, k + 1);
            assert(next =~= prefix.push(cpu));
            assert(forall|j: int| 0 <= j < prefix.len() ==> next[j] == prefix[j]);
            if cpu >= system_cpus {
                assert(next[k as int] == cpu);
                assert(spec_any_at_or_above(next, system_cpus));
            } else {
                if spec_any_at_or_above(next, system_cpus) {
                    let w = choose|j: int|
                        0 <= j < next.len() && (#[trigger] next[j]) >= system_cpus;
                    if w < k {
                        assert(prefix[w] >= system_cpus);
                    }
                }
            }
        }
        if cpu >= system_cpus {
            warning = true;
        }
        k = k + 1;
    }
    proof {
        assert(profile.cpus@.subrange(0, profile.cpus@.len() as int) =~= profile.cpus@);
    }
    Ok(ValidationReport { cpu_warning: warning })
}

/// Relies on num_cpus::get: the number of logical CPUs available to this
/// process, which is documented to be at least 1. The value depends on
/// the machine, so nothing more is claimed of it.
#[verifier::external_body]
pub(crate) fn system_cpu_count() -> (r: usize)
    ensures
        1 <= r,
{
    num_cpus::get()
}

/// Validate a profile against the live system's logical CPU count.
///
/// Whatever count the system reports, rejection does not depend on it:
/// the profile is rejected exactly when the executable is missing or the
/// CPU set is empty, the missing executable reported first. The warning
/// inside a passing report does depend on the count; every count yields a
/// report with the warning computed for it.
pub fn validate_profile_live(profile: &LaunchProfile, path_exists: bool) -> (r: Result<
    ValidationReport,
    ValidationError,
>)
    ensures
        r is Err <==> (!path_exists || profile@.cpus.len() == 0),
        !path_exists ==> r == Err::<ValidationReport, ValidationError>(
            ValidationError::MissingExecutable,
        ),
        (path_exists && profile@.cpus.len() == 0) ==> r == Err::<
            ValidationReport,
            ValidationError,
        >(ValidationError::EmptyCpuSet),
        r matches Ok(rep) ==> exists|n: usize|
            n >= 1 && spec_validate(profile@, path_exists, n) == Ok::<
                ValidationReport,
                ValidationError,
            >(rep),
{
    let n = system_cpu_count();
    let r = validate_profile(profile, path_exists, n);
    proof {
        if r is Ok {
            assert(n >= 1 && spec_validate(profile@, path_exists, n) == r);
        }
    }
    r
}

} // verus!
