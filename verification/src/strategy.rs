//! The two platform launch strategies. On a direct-control platform the
//! target is spawned unconstrained and its affinity and priority are set
//! through a process handle afterward. On a wrapper-delegation platform
//! the constraints are baked into the spawn itself: an affinity wrapper
//! utility takes a comma-separated CPU list, and, when a priority is
//! requested, a niceness wrapper is composed around it.

use crate::priority::ProcessPriority;
use crate::profile::LaunchProfile;
use vstd::prelude::*;

verus! {

/// Which strategy the platform offers. Selected once per invocation by
/// the target platform, never by profile content.
#[derive(Clone, Copy, Debug, PartialEq, Eq, Structural)]
pub enum Platform {
    /// Spawn first, then set attributes through a handle.
    DirectControl,
    /// Constrain at spawn time through wrapper utilities.
    WrapperDelegation,
}

/// The comma-separated decimal writing of a CPU list, as the affinity
/// wrapper utility expects it.
pub open spec fn spec_cpu_list(cpus: Seq<usize>) -> Seq<char>
    decreases cpus.len(),
{
    if cpus.len() == 0 {
        Seq::empty()
    } else if cpus.len() == 1 {
        crate::numfmt::spec_decimal(cpus[0] as nat)
    } else {
        spec_cpu_list(cpus.drop_last()) + ","@ + crate::numfmt::spec_decimal(cpus.last() as nat)
    }
}

/// Render a CPU list for the wrapper utility's command line.
pub fn cpu_list_string(cpus: &Vec<usize>) -> (r: String)
    ensures
        r@ == spec_cpu_list(cpus@),
{
    let mut s = String::new();
    let mut i: usize = 0;
    while i < cpus.len()
        invariant
            0 <= i <= cpus@.len(),
            s@ == spec_cpu_list(cpus@.subrange(0, i as int)),
        decreases cpus@.len() - i,
    {
        if i > 0 {
            s.append(",");
        }
        crate::numfmt::append_decimal(&mut s, cpus[i] as u64);
        proof {
            let next = cpus@.subrange(0, i + 1);
            assert(next.drop_last() =~= cpus@.subrange(0, i as int));
            if i == 0 {
                assert(Seq::<char>::empty() + crate::numfmt::spec_decimal(
                    cpus@[0] as nat,
                ) =~= crate::numfmt::spec_decimal(cpus@[0] as nat));
            }
        }
        i = i + 1;
    }
    proof {
        assert(cpus@.subrange(0, cpus@.len() as int) =~= cpus@);
    }
    s
}

/// A spawn-time wrapper invocation: the program to run and its
/// arguments, the target executable and its pass-through arguments
/// included.
pub struct WrapperCommand {
    pub program: String,
    pub args: Vec<String>,
}

/// The views of a string vector, element-wise.
pub open spec fn arg_views(args: Seq<String>) -> Seq<Seq<char>> {
    args.map_values(|s: String| s@)
}

/// The argument views a wrapper invocation owes for a profile: the
/// affinity wrapper takes the CPU list and the target command line; when
/// a priority is requested, the niceness wrapper wraps that whole
/// invocation.
pub open spec fn spec_wrapper_args(profile: LaunchProfile, extra: Seq<String>) -> Seq<Seq<char>> {
    let tail = seq!["-c"@, spec_cpu_list(profile.cpus@), profile.path@] + arg_views(extra);
    match profile.priority {
        Some(p) => seq!["-n"@, p.spec_nice_chars(), "taskset"@] + tail,
        None => tail,
    }
}

/// The program a wrapper invocation runs: the niceness wrapper when a
/// priority is requested, the affinity wrapper alone otherwise.
pub open spec fn spec_wrapper_program(profile: LaunchProfile) -> Seq<char> {
    match profile.priority {
        Some(_) => "nice"@,
        None => "taskset"@,
    }
}

/// Build the wrapper-delegation invocation for a profile: the affinity
/// wrapper with the CPU list and the target, composed inside the
/// niceness wrapper when a priority is requested.
pub fn build_wrapper_command(profile: &LaunchProfile, extra: &Vec<String>) -> (r: WrapperCommand)
    ensures
        r.program@ == spec_wrapper_program(*profile),
        arg_views(r.args@) == spec_wrapper_args(*profile, extra@),
{
    let mut args: Vec<String> = Vec::new();
    match &profile.priority {
        Some(p) => {
            args.push("-n".to_owned());
            args.push(p.to_nice_value().to_owned());
            args.push("taskset".to_owned());
        },
        None => {},
    }
    args.push("-c".to_owned());
    args.push(cpu_list_string(&profile.cpus));
    args.push(profile.path.clone());
    let mut j: usize = 0;
    let ghost base = args@.len() as int;
    proof {
        assert(args@.subrange(0, base) =~= args@);
        assert(arg_views(args@) =~= spec_wrapper_args(*profile, Seq::<String>::empty()));
    }
    while j < extra.len()
        invariant
            0 <= j <= extra@.len(),
            args@.len() == base + j,
            base == if profile.priority is Some {
                6int
            } else {
                3int
            },
            arg_views(args@.subrange(0, base)) == spec_wrapper_args(
                *profile,
                Seq::<String>::empty(),
            ),
            forall|t: int| 0 <= t < j ==> (#[trigger] args@[base + t])@ == extra@[t]@,
            forall|t: int| 0 <= t < base ==> (#[trigger] args@[t]) == args@.subrange(0, base)[t],
        decreases extra@.len() - j,
    {
        let ghost prev = args@;
        args.push(extra[j].clone());
        proof {
            assert(args@.subrange(0, base) =~= prev.subrange(0, base));
        }
        j = j + 1;
    }
    let program = match &profile.priority {
        Some(_) => "nice".to_owned(),
        None => "taskset".to_owned(),
    };
    proof {
        let target = spec_wrapper_args(*profile, extra@);
        let empty_target = spec_wrapper_args(*profile, Seq::<String>::empty());
        assert(arg_views(args@).len() == target.len());
        assert forall|t: int| 0 <= t < target.len() implies arg_views(args@)[t] == target[t] by {
            if t < base {
                assert(arg_views(args@.subrange(0, base))[t] == empty_target[t]);
                assert(args@.subrange(0, base)[t] == args@[t]);
            } else {
                assert(args@[base + (t - base)]@ == extra@[t - base]@);
            }
        }
        assert(arg_views(args@) =~= target);
    }
    WrapperCommand { program, args }
}

} // verus!
