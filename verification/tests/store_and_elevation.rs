use affinity_rs::elevation::{
    check_privilege, classify_relaunch_code, make_handoff, relaunch_parameters, resolve_relaunch,
    ElevationError, NegotiatorState,
};
use affinity_rs::priority::ProcessPriority;
use affinity_rs::profile::LaunchProfile;
use affinity_rs::store::{is_transient_name, temp_profile_name, ProfileStore};

fn sample_profile(priority: Option<ProcessPriority>) -> LaunchProfile {
    LaunchProfile {
        path: "/bin/true".to_string(),
        cpus: vec![0, 1],
        priority,
        retry_attempts: None,
    }
}

#[test]
fn store_insert_get_remove() {
    let mut store = ProfileStore::new();
    assert_eq!(store.len(), 0);
    store.insert("game".to_string(), sample_profile(None));
    assert_eq!(store.len(), 1);
    let name = "game".to_string();
    let p = store.get(&name).unwrap();
    assert_eq!(p.path, "/bin/true");
    assert_eq!(p.cpus, vec![0, 1]);
    assert!(store.remove(&name));
    assert_eq!(store.len(), 0);
    assert!(store.get(&name).is_none());
    assert!(!store.remove(&name));
}

#[test]
fn store_insert_replaces_same_name() {
    let mut store = ProfileStore::new();
    store.insert("game".to_string(), sample_profile(None));
    let mut other = sample_profile(Some(ProcessPriority::High));
    other.cpus = vec![3];
    store.insert("game".to_string(), other);
    assert_eq!(store.len(), 1);
    let name = "game".to_string();
    let p = store.get(&name).unwrap();
    assert_eq!(p.cpus, vec![3]);
}

#[test]
fn transient_names_carry_the_tag() {
    let name = temp_profile_name(4711);
    assert_eq!(name, "__temp_4711");
    assert!(is_transient_name(&name));
    assert!(is_transient_name(&"__temp_".to_string()));
    assert!(!is_transient_name(&"game".to_string()));
    assert!(!is_transient_name(&"__temp".to_string()));
}

#[test]
fn purge_removes_only_transient_records() {
    let mut store = ProfileStore::new();
    store.insert("game".to_string(), sample_profile(None));
    store.insert(temp_profile_name(1), sample_profile(None));
    store.insert(temp_profile_name(2), sample_profile(None));
    assert_eq!(store.len(), 3);
    assert!(store.has_transient());
    store.purge_transient();
    assert!(!store.has_transient());
    assert_eq!(store.len(), 1);
    assert!(store.contains(&"game".to_string()));
}

#[test]
fn handoff_record_absent_after_success_branch() {
    let mut store = ProfileStore::new();
    store.insert("game".to_string(), sample_profile(None));
    let name = temp_profile_name(99);
    store.insert(name.clone(), sample_profile(Some(ProcessPriority::Realtime)));
    // The elevated child runs with the cleanup flag and deletes the record.
    assert!(store.remove(&name));
    assert!(!store.contains(&name));
    assert!(!store.has_transient());
    assert_eq!(store.len(), 1);
}

#[test]
fn handoff_record_absent_after_failure_branch() {
    let mut store = ProfileStore::new();
    let name = temp_profile_name(99);
    store.insert(name.clone(), sample_profile(Some(ProcessPriority::Realtime)));
    // The re-invocation was rejected; the issuing process deletes the record.
    assert!(store.remove(&name));
    assert!(!store.contains(&name));
    assert_eq!(store.len(), 0);
}

#[test]
fn negotiator_sufficient_without_gated_priority() {
    let s = check_privilege(NegotiatorState::Unchecked, Some(ProcessPriority::Normal), false);
    assert_eq!(s, NegotiatorState::Sufficient);
    let s = check_privilege(NegotiatorState::Unchecked, None, false);
    assert_eq!(s, NegotiatorState::Sufficient);
    let s = check_privilege(NegotiatorState::Unchecked, Some(ProcessPriority::Realtime), true);
    assert_eq!(s, NegotiatorState::Sufficient);
}

#[test]
fn negotiator_round_trip_on_declined_prompt() {
    // A profile requests Realtime without elevated rights.
    let s = check_privilege(NegotiatorState::Unchecked, Some(ProcessPriority::Realtime), false);
    assert_eq!(s, NegotiatorState::InsufficientPending);

    // One transient record is persisted for the round trip.
    let mut store = ProfileStore::new();
    let handoff = make_handoff(None, 1234);
    assert!(handoff.cleanup_required);
    assert!(is_transient_name(&handoff.profile_name));
    store.insert(
        handoff.profile_name.clone(),
        sample_profile(Some(ProcessPriority::Realtime)),
    );
    assert!(store.has_transient());
    assert_eq!(store.len(), 1);

    // The user declines the prompt: access denied.
    let err = classify_relaunch_code(5).unwrap_err();
    assert_eq!(err, ElevationError::Declined);
    let s = resolve_relaunch(s, false);
    assert_eq!(s, NegotiatorState::Cleaned);

    // Zero transient records remain once cleaned.
    assert!(store.remove(&handoff.profile_name));
    assert!(!store.has_transient());
    assert_eq!(store.len(), 0);
}

#[test]
fn negotiator_elevated_on_accepted_prompt() {
    let s = check_privilege(NegotiatorState::Unchecked, Some(ProcessPriority::High), false);
    assert_eq!(s, NegotiatorState::InsufficientPending);
    assert!(classify_relaunch_code(42).is_ok());
    let s = resolve_relaunch(s, true);
    assert_eq!(s, NegotiatorState::Elevated);
}

#[test]
fn relaunch_error_categories() {
    assert_eq!(classify_relaunch_code(0).unwrap_err(), ElevationError::ResourceExhaustion);
    assert_eq!(classify_relaunch_code(8).unwrap_err(), ElevationError::ResourceExhaustion);
    assert_eq!(classify_relaunch_code(2).unwrap_err(), ElevationError::TargetMissing);
    assert_eq!(classify_relaunch_code(3).unwrap_err(), ElevationError::TargetMissing);
    assert_eq!(classify_relaunch_code(5).unwrap_err(), ElevationError::Declined);
    assert_eq!(classify_relaunch_code(31).unwrap_err(), ElevationError::Unknown(31));
    assert_eq!(classify_relaunch_code(11).unwrap_err(), ElevationError::Unknown(11));
    assert!(classify_relaunch_code(33).is_ok());
}

#[test]
fn handoff_uses_durable_name_when_one_exists() {
    let name = "game".to_string();
    let handoff = make_handoff(Some(&name), 1234);
    assert_eq!(handoff.profile_name, "game");
    assert!(!handoff.cleanup_required);
}

#[test]
fn relaunch_parameters_carry_name_flag_and_args() {
    let handoff = make_handoff(None, 7);
    let args = vec!["--windowed".to_string(), "--fast".to_string()];
    let params = relaunch_parameters(&handoff, &args);
    assert_eq!(
        params,
        vec![
            "__temp_7".to_string(),
            "--cleanup-temp".to_string(),
            "--windowed".to_string(),
            "--fast".to_string(),
        ]
    );
}
