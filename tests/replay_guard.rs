use key_ownership::ReplayGuard;

#[test]
fn new_guard_is_empty() {
    let guard = ReplayGuard::new();
    assert_eq!(guard.count(), 0);
    assert!(guard.nonces().is_empty());
    assert!(!guard.contains("a"));
}

#[test]
fn try_consume_accepts_once() {
    let mut guard = ReplayGuard::new();
    assert!(guard.try_consume("n1"));
    assert!(!guard.try_consume("n1"));
    assert_eq!(guard.count(), 1);
    assert!(guard.contains("n1"));
}

#[test]
fn distinct_nonces_are_each_consumed() {
    let mut guard = ReplayGuard::new();
    assert!(guard.try_consume("a"));
    assert!(guard.try_consume("b"));
    assert!(guard.try_consume("c"));
    assert!(!guard.try_consume("b"));
    assert_eq!(guard.count(), 3);
    let mut listed = guard.nonces();
    listed.sort();
    assert_eq!(listed, vec!["a".to_string(), "b".to_string(), "c".to_string()]);
}

#[test]
fn nonces_differing_in_case_or_space_are_distinct() {
    let mut guard = ReplayGuard::new();
    assert!(guard.try_consume("abc"));
    assert!(guard.try_consume("ABC"));
    assert!(guard.try_consume("abc "));
    assert_eq!(guard.count(), 3);
}

#[test]
fn cleared_nonce_can_be_consumed_again() {
    let mut guard = ReplayGuard::new();
    assert!(guard.try_consume("n"));
    assert!(guard.try_consume("m"));
    guard.clear();
    assert_eq!(guard.count(), 0);
    assert!(!guard.contains("n"));
    assert!(guard.try_consume("n"));
    assert_eq!(guard.count(), 1);
}
