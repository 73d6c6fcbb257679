use wall_updater::lock::{decide_acquire, is_alive, recorded_pid, LockDecision, ProbeOutcome};
use wall_updater::pidfile::{parse_pid, render_pid};

#[test]
fn parse_plain_and_padded_ids() {
    assert_eq!(parse_pid(b"1234"), Some(1234));
    assert_eq!(parse_pid(b"  42\n"), Some(42));
    assert_eq!(parse_pid(b"\t-7\r\n"), Some(-7));
    assert_eq!(parse_pid(b"+9"), Some(9));
    assert_eq!(parse_pid(b"0"), Some(0));
}

#[test]
fn parse_rejects_unreadable_records() {
    assert_eq!(parse_pid(b""), None);
    assert_eq!(parse_pid(b"   "), None);
    assert_eq!(parse_pid(b"-"), None);
    assert_eq!(parse_pid(b"+"), None);
    assert_eq!(parse_pid(b"12a"), None);
    assert_eq!(parse_pid(b"1 2"), None);
    assert_eq!(parse_pid(b"abc"), None);
    assert_eq!(parse_pid(&[0xff, 0x31]), None);
}

#[test]
fn parse_respects_i32_range() {
    assert_eq!(parse_pid(b"2147483647"), Some(i32::MAX));
    assert_eq!(parse_pid(b"2147483648"), None);
    assert_eq!(parse_pid(b"-2147483648"), Some(i32::MIN));
    assert_eq!(parse_pid(b"-2147483649"), None);
    assert_eq!(parse_pid(b"99999999999999999999"), None);
}

#[test]
fn render_writes_decimal_text() {
    assert_eq!(render_pid(999999), b"999999".to_vec());
    assert_eq!(render_pid(0), b"0".to_vec());
    assert_eq!(render_pid(-42), b"-42".to_vec());
    assert_eq!(render_pid(i32::MIN), b"-2147483648".to_vec());
}

#[test]
fn render_then_parse_round_trips() {
    for pid in [0, 1, 9, 10, 4321, 999999, i32::MAX, -1, i32::MIN] {
        assert_eq!(parse_pid(&render_pid(pid)), Some(pid));
    }
}

#[test]
fn liveness_counts_permission_denied_as_alive() {
    assert!(is_alive(ProbeOutcome::Delivered));
    assert!(is_alive(ProbeOutcome::NotPermitted));
    assert!(!is_alive(ProbeOutcome::Failed));
}

#[test]
fn recorded_pid_of_missing_or_bad_record() {
    assert_eq!(recorded_pid(None), None);
    assert_eq!(recorded_pid(Some(b"garbage")), None);
    assert_eq!(recorded_pid(Some(b"77\n")), Some(77));
    assert_eq!(recorded_pid(Some(b"0")), None);
    assert_eq!(recorded_pid(Some(b"-1")), None);
}

#[test]
fn acquire_without_record_claims() {
    match decide_acquire(None, false, 1234) {
        LockDecision::Claim { remove_stale, record } => {
            assert!(!remove_stale);
            assert_eq!(record, b"1234".to_vec());
        }
        other => panic!("unexpected {:?}", other),
    }
}

#[test]
fn acquire_replaces_dead_owner() {
    match decide_acquire(Some(b"999999"), false, 1234) {
        LockDecision::Claim { remove_stale, record } => {
            assert!(remove_stale);
            assert_eq!(parse_pid(&record), Some(1234));
        }
        other => panic!("unexpected {:?}", other),
    }
}

#[test]
fn acquire_clears_unparsable_record() {
    match decide_acquire(Some(b"not a pid"), true, 55) {
        LockDecision::Claim { remove_stale, record } => {
            assert!(remove_stale);
            assert_eq!(record, b"55".to_vec());
        }
        other => panic!("unexpected {:?}", other),
    }
}

#[test]
fn acquire_refuses_live_owner() {
    match decide_acquire(Some(b"4242\n"), true, 1234) {
        LockDecision::Refuse { owner } => assert_eq!(owner, 4242),
        other => panic!("unexpected {:?}", other),
    }
}

#[test]
fn second_acquire_names_first_owner() {
    let first = match decide_acquire(Some(b"999999"), false, 1000) {
        LockDecision::Claim { record, .. } => record,
        other => panic!("unexpected {:?}", other),
    };
    let pid = recorded_pid(Some(&first));
    assert_eq!(pid, Some(1000));
    match decide_acquire(Some(&first), true, 2000) {
        LockDecision::Refuse { owner } => assert_eq!(owner, 1000),
        other => panic!("unexpected {:?}", other),
    }
}

#[test]
fn acquire_treats_non_positive_owner_as_stale() {
    for rec in [&b"0"[..], &b"-1"[..]] {
        match decide_acquire(Some(rec), true, 77) {
            LockDecision::Claim { remove_stale, record } => {
                assert!(remove_stale);
                assert_eq!(record, b"77".to_vec());
            }
            other => panic!("unexpected {:?}", other),
        }
    }
}
