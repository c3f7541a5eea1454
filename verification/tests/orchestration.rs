use affinity_rs::apply::{
    apply_step, pending_targets, ApplyState, AttemptObservation, CallReport,
};
use affinity_rs::mask::MaskError;
use affinity_rs::orchestrator::{
    classify_application, drive_application, pre_launch, terminal_outcome, FailureCause,
    LaunchAttemptResult, LaunchPlan, PreLaunchDecision, TerminalOutcome,
};
use affinity_rs::priority::ProcessPriority;
use affinity_rs::profile::{validate_profile, validate_profile_live, LaunchProfile, ValidationError};
use affinity_rs::retry::{run_retries, AttemptOutcome, RetryResult};
use affinity_rs::strategy::{build_wrapper_command, cpu_list_string, Platform};

fn profile(path: &str, cpus: Vec<usize>, priority: Option<ProcessPriority>) -> LaunchProfile {
    LaunchProfile { path: path.to_string(), cpus, priority, retry_attempts: None }
}

#[test]
fn priority_tables() {
    assert_eq!(ProcessPriority::Idle.display_name(), "Idle");
    assert_eq!(ProcessPriority::BelowNormal.display_name(), "Below Normal");
    assert_eq!(ProcessPriority::Normal.display_name(), "Normal");
    assert_eq!(ProcessPriority::AboveNormal.display_name(), "Above Normal");
    assert_eq!(ProcessPriority::High.display_name(), "High");
    assert_eq!(ProcessPriority::Realtime.display_name(), "Realtime");

    assert_eq!(ProcessPriority::Idle.to_nice_value(), "19");
    assert_eq!(ProcessPriority::BelowNormal.to_nice_value(), "10");
    assert_eq!(ProcessPriority::Normal.to_nice_value(), "0");
    assert_eq!(ProcessPriority::AboveNormal.to_nice_value(), "-5");
    assert_eq!(ProcessPriority::High.to_nice_value(), "-10");
    assert_eq!(ProcessPriority::Realtime.to_nice_value(), "-20");

    assert_eq!(ProcessPriority::Idle.to_windows_class(), 0x40);
    assert_eq!(ProcessPriority::BelowNormal.to_windows_class(), 0x4000);
    assert_eq!(ProcessPriority::Normal.to_windows_class(), 0x20);
    assert_eq!(ProcessPriority::AboveNormal.to_windows_class(), 0x8000);
    assert_eq!(ProcessPriority::High.to_windows_class(), 0x80);
    assert_eq!(ProcessPriority::Realtime.to_windows_class(), 0x100);

    assert!(!ProcessPriority::Idle.requires_elevation());
    assert!(!ProcessPriority::BelowNormal.requires_elevation());
    assert!(!ProcessPriority::Normal.requires_elevation());
    assert!(!ProcessPriority::AboveNormal.requires_elevation());
    assert!(ProcessPriority::High.requires_elevation());
    assert!(ProcessPriority::Realtime.requires_elevation());
}

#[test]
fn validation_reports_each_error() {
    let p = profile("/bin/true", vec![0], None);
    assert_eq!(
        validate_profile(&p, false, 8),
        Err(ValidationError::MissingExecutable)
    );
    let empty = profile("/bin/true", vec![], None);
    assert_eq!(
        validate_profile(&empty, true, 8),
        Err(ValidationError::EmptyCpuSet)
    );
    let ok = validate_profile(&p, true, 8).unwrap();
    assert!(!ok.cpu_warning);
    let excessive = profile("/bin/true", vec![0, 9], None);
    let rep = validate_profile(&excessive, true, 8).unwrap();
    assert!(rep.cpu_warning);
}

#[test]
fn live_validation_follows_the_machine_cpu_count() {
    let p = profile("/bin/true", vec![0], None);
    // CPU 0 exists on every machine: no warning whatever the count.
    let rep = validate_profile_live(&p, true).unwrap();
    assert!(!rep.cpu_warning);
    assert_eq!(
        validate_profile_live(&p, false),
        Err(ValidationError::MissingExecutable)
    );
    let empty = profile("/bin/true", vec![], None);
    assert_eq!(
        validate_profile_live(&empty, true),
        Err(ValidationError::EmptyCpuSet)
    );
}

#[test]
fn apply_steps_track_confirmed_subset() {
    let s0 = ApplyState::initial();
    assert_eq!(pending_targets(s0, true), (true, true));

    // Process not ready: nothing changes.
    let obs = AttemptObservation {
        handle_opened: false,
        affinity_call: CallReport::Applied,
        priority_call: CallReport::Applied,
    };
    let (s1, out) = apply_step(s0, true, obs);
    assert_eq!(out, AttemptOutcome::NotReady);
    assert_eq!(s1, s0);

    // Affinity applies, priority is refused: success with priority pending.
    let obs = AttemptObservation {
        handle_opened: true,
        affinity_call: CallReport::Applied,
        priority_call: CallReport::Refused,
    };
    let (s2, out) = apply_step(s1, true, obs);
    assert_eq!(out, AttemptOutcome::Success);
    assert!(s2.affinity_confirmed);
    assert!(!s2.priority_confirmed);
    assert_eq!(pending_targets(s2, true), (false, true));

    // A later attempt confirms priority and never re-applies affinity.
    let obs = AttemptObservation {
        handle_opened: true,
        affinity_call: CallReport::Refused,
        priority_call: CallReport::Applied,
    };
    let (s3, out) = apply_step(s2, true, obs);
    assert_eq!(out, AttemptOutcome::Success);
    assert!(s3.affinity_confirmed);
    assert!(s3.priority_confirmed);
    assert_eq!(pending_targets(s3, true), (false, false));
}

#[test]
fn apply_step_surfaces_refused_affinity() {
    let s0 = ApplyState::initial();
    let obs = AttemptObservation {
        handle_opened: true,
        affinity_call: CallReport::Refused,
        priority_call: CallReport::Applied,
    };
    let (s1, out) = apply_step(s0, false, obs);
    assert_eq!(out, AttemptOutcome::Error);
    assert_eq!(s1, s0);
}

#[test]
fn cpu_list_renders_comma_separated_decimals() {
    assert_eq!(cpu_list_string(&vec![0, 1, 2]), "0,1,2");
    assert_eq!(cpu_list_string(&vec![10]), "10");
    assert_eq!(cpu_list_string(&vec![]), "");
    assert_eq!(cpu_list_string(&vec![3, 12, 105]), "3,12,105");
}

#[test]
fn wrapper_command_without_priority_uses_affinity_wrapper_alone() {
    let p = profile("/opt/game/run", vec![0, 2], None);
    let cmd = build_wrapper_command(&p, &vec!["--fast".to_string()]);
    assert_eq!(cmd.program, "taskset");
    assert_eq!(
        cmd.args,
        vec![
            "-c".to_string(),
            "0,2".to_string(),
            "/opt/game/run".to_string(),
            "--fast".to_string(),
        ]
    );
}

#[test]
fn wrapper_command_with_priority_composes_niceness_wrapper() {
    let p = profile("/opt/game/run", vec![1], Some(ProcessPriority::High));
    let cmd = build_wrapper_command(&p, &vec![]);
    assert_eq!(cmd.program, "nice");
    assert_eq!(
        cmd.args,
        vec![
            "-n".to_string(),
            "-10".to_string(),
            "taskset".to_string(),
            "-c".to_string(),
            "1".to_string(),
            "/opt/game/run".to_string(),
        ]
    );
}

#[test]
fn direct_control_scenario_on_four_bit_word() {
    // Profile {path: /bin/true, cpu_set: {0,1}, priority: Normal} on a
    // direct-control platform with a 4-bit word.
    let p = profile("/bin/true", vec![0, 1], Some(ProcessPriority::Normal));
    let decision = pre_launch(&p, true, 4, Platform::DirectControl, false, 4, &vec![]);
    let (mask, retry_budget, initial_delay_ms) = match decision {
        PreLaunchDecision::Proceed { plan: LaunchPlan::Direct { mask, retry_budget, initial_delay_ms, .. }, cpu_warning } => {
            assert!(!cpu_warning);
            (mask, retry_budget, initial_delay_ms)
        },
        _ => panic!("expected a direct-control plan"),
    };
    assert_eq!(mask, 0b0011);
    assert_eq!(retry_budget, 5);
    assert_eq!(initial_delay_ms, 100);

    // The spawn succeeds and the first attempt applies everything.
    let script = vec![AttemptOutcome::Success; retry_budget];
    let run = run_retries(retry_budget, initial_delay_ms, 1000, &script);
    assert_eq!(run.attempts_made, 1);
    assert_eq!(run.delays[0], 100);
    assert_eq!(run.result, RetryResult::Achieved);

    let state = ApplyState { affinity_confirmed: true, priority_confirmed: true };
    let attempt = classify_application(run.result, state, true, false);
    assert_eq!(attempt, LaunchAttemptResult::Success);
    assert_eq!(terminal_outcome(attempt), TerminalOutcome::LaunchedFully);
}

#[test]
fn out_of_range_cpu_set_fails_before_any_spawn() {
    // cpu_set {200} on a 64-bit word platform: the mask computes to zero
    // and the operation fails with InvalidMask; no plan is produced.
    let p = profile("/bin/true", vec![200], None);
    let decision = pre_launch(&p, true, 64, Platform::DirectControl, false, 64, &vec![]);
    match decision {
        PreLaunchDecision::MaskFailed(e) => assert_eq!(e, MaskError::InvalidMask),
        _ => panic!("expected the mask failure"),
    }
}

#[test]
fn gated_priority_diverts_to_elevation() {
    let p = profile("/bin/true", vec![0], Some(ProcessPriority::Realtime));
    let decision = pre_launch(&p, true, 8, Platform::DirectControl, false, 64, &vec![]);
    assert!(matches!(decision, PreLaunchDecision::NeedsElevation));
    // With elevated rights the same request proceeds.
    let decision = pre_launch(&p, true, 8, Platform::DirectControl, true, 64, &vec![]);
    assert!(matches!(decision, PreLaunchDecision::Proceed { .. }));
    // The wrapper platform does not gate: elevation is advisory there.
    let decision = pre_launch(&p, true, 8, Platform::WrapperDelegation, false, 64, &vec![]);
    assert!(matches!(decision, PreLaunchDecision::Proceed { .. }));
}

#[test]
fn invalid_profiles_are_rejected_before_planning() {
    let p = profile("/no/such/file", vec![0], None);
    let decision = pre_launch(&p, false, 8, Platform::DirectControl, false, 64, &vec![]);
    assert!(matches!(
        decision,
        PreLaunchDecision::Rejected(ValidationError::MissingExecutable)
    ));
    let p = profile("/bin/true", vec![], None);
    let decision = pre_launch(&p, true, 8, Platform::DirectControl, false, 64, &vec![]);
    assert!(matches!(
        decision,
        PreLaunchDecision::Rejected(ValidationError::EmptyCpuSet)
    ));
}

#[test]
fn driven_application_waits_for_the_process_then_applies() {
    // The launcher process is not ready on the first attempt; the second
    // applies affinity but the priority call is refused; the third
    // confirms priority.
    let obs = vec![
        AttemptObservation {
            handle_opened: false,
            affinity_call: CallReport::Refused,
            priority_call: CallReport::Refused,
        },
        AttemptObservation {
            handle_opened: true,
            affinity_call: CallReport::Applied,
            priority_call: CallReport::Refused,
        },
        AttemptObservation {
            handle_opened: true,
            affinity_call: CallReport::Applied,
            priority_call: CallReport::Applied,
        },
    ];
    let run = drive_application(3, 100, 1000, true, &obs);
    // The second attempt already reports success: affinity is what the
    // engine waits for, priority is best effort.
    assert_eq!(run.attempts_made, 2);
    assert_eq!(run.delays, vec![100, 200]);
    assert_eq!(run.result, RetryResult::Achieved);
    assert!(run.state.affinity_confirmed);
    assert!(!run.state.priority_confirmed);

    let attempt = classify_application(run.result, run.state, true, false);
    assert_eq!(
        attempt,
        LaunchAttemptResult::PartialSuccess { affinity_applied: true, priority_applied: false }
    );
}

#[test]
fn driven_application_exhausts_on_an_absent_process() {
    let obs = vec![
        AttemptObservation {
            handle_opened: false,
            affinity_call: CallReport::Refused,
            priority_call: CallReport::Refused,
        };
        4
    ];
    let run = drive_application(4, 100, 1000, false, &obs);
    assert_eq!(run.attempts_made, 4);
    assert_eq!(run.result, RetryResult::NotAchieved);
    assert!(!run.state.affinity_confirmed);
    let attempt = classify_application(run.result, run.state, false, true);
    assert_eq!(attempt, LaunchAttemptResult::Exited);
}

#[test]
fn driven_application_surfaces_a_final_refusal() {
    let obs = vec![
        AttemptObservation {
            handle_opened: true,
            affinity_call: CallReport::Refused,
            priority_call: CallReport::Refused,
        };
        2
    ];
    let run = drive_application(2, 100, 1000, false, &obs);
    assert_eq!(run.attempts_made, 2);
    assert_eq!(run.result, RetryResult::Failed);
    let attempt = classify_application(run.result, run.state, false, false);
    assert_eq!(
        attempt,
        LaunchAttemptResult::Failed { cause: FailureCause::AttributeApplyFailed }
    );
    assert_eq!(
        terminal_outcome(attempt),
        TerminalOutcome::LaunchedPartially(attempt)
    );
}

#[test]
fn partial_and_exited_classifications() {
    let affinity_only = ApplyState { affinity_confirmed: true, priority_confirmed: false };
    let attempt = classify_application(RetryResult::Achieved, affinity_only, true, false);
    assert_eq!(
        attempt,
        LaunchAttemptResult::PartialSuccess { affinity_applied: true, priority_applied: false }
    );
    assert_eq!(
        terminal_outcome(attempt),
        TerminalOutcome::LaunchedPartially(attempt)
    );

    let nothing = ApplyState { affinity_confirmed: false, priority_confirmed: false };
    let attempt = classify_application(RetryResult::NotAchieved, nothing, false, true);
    assert_eq!(attempt, LaunchAttemptResult::Exited);

    let attempt = classify_application(RetryResult::NotAchieved, nothing, false, false);
    assert_eq!(
        attempt,
        LaunchAttemptResult::PartialSuccess { affinity_applied: false, priority_applied: false }
    );

    // A spawn failure is terminal for the attempt and never retried.
    let spawn_failed = LaunchAttemptResult::Failed { cause: FailureCause::SpawnFailed };
    assert_eq!(
        terminal_outcome(spawn_failed),
        TerminalOutcome::LaunchedPartially(spawn_failed)
    );
}
