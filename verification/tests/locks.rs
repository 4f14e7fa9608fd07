use pie::locks::DeployLocks;

#[test]
fn a_lock_can_be_taken_once() {
    let mut locks = DeployLocks::new();
    assert!(!locks.is_locked("a/b"));
    assert!(locks.acquire("a/b"));
    assert!(locks.is_locked("a/b"));
    assert!(!locks.acquire("a/b"));
    assert!(locks.is_locked("a/b"));
}

#[test]
fn releasing_frees_the_lock() {
    let mut locks = DeployLocks::new();
    assert!(locks.acquire("a/b"));
    locks.release("a/b");
    assert!(!locks.is_locked("a/b"));
    assert!(locks.acquire("a/b"));
}

#[test]
fn locks_of_distinct_repositories_are_independent() {
    let mut locks = DeployLocks::new();
    assert!(locks.acquire("a/b"));
    assert!(locks.acquire("c/d"));
    locks.release("a/b");
    assert!(!locks.is_locked("a/b"));
    assert!(locks.is_locked("c/d"));
}

#[test]
fn releasing_an_unheld_lock_changes_nothing() {
    let mut locks = DeployLocks::new();
    assert!(locks.acquire("a/b"));
    locks.release("x/y");
    assert!(locks.is_locked("a/b"));
    assert!(!locks.is_locked("x/y"));
}
