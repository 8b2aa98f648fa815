use bc_camera::registration::{backoff_after, was_last_round};

#[test]
fn waits_double_and_then_stay_at_thirty_seconds() {
    let waits: Vec<u64> = (0..8).map(backoff_after).collect();
    assert_eq!(waits, vec![1, 2, 4, 8, 16, 30, 30, 30]);
    assert_eq!(backoff_after(usize::MAX), 30);
}

#[test]
fn rounds_are_limited_only_by_a_limit() {
    assert!(!was_last_round(0, 1));
    assert!(was_last_round(1, 1));
    assert!(was_last_round(5, 1));
    assert!(!was_last_round(0, 0));
    assert!(!was_last_round(usize::MAX, 0));
}
