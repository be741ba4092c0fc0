use mod_review::coordinator::ReviewCoordinator;
use mod_review::models::{Permissions, Status, User, UserProperties};

fn perms() -> Permissions {
    Permissions { moderator: false, approve_user: false, login: false }
}

fn mk_user(id: i64, name: &str, created: i64) -> User {
    User {
        id,
        discord_id: 0,
        username: name.to_string(),
        password: String::new(),
        permissions: perms(),
        status: Status::Found,
        status_changed: 0,
        discoverer: String::new(),
        reviewer: String::new(),
        properties: UserProperties { avatar: String::new(), description: String::new() },
        created,
    }
}

#[test]
fn assigns_distinct_users_until_exhausted_then_none() {
    let mut c = ReviewCoordinator::new();
    let found = vec![mk_user(1, "a", 10), mk_user(2, "b", 20), mk_user(3, "c", 30)];
    let mut seen = Vec::new();
    for _ in 0..3 {
        let u = c.next_candidate(&found).expect("a pending user should be assigned");
        assert!(!seen.contains(&u.id), "an id was handed out twice");
        seen.push(u.id);
    }
    assert!(c.next_candidate(&found).is_none(), "all claimed: must be NotFound");
}

#[test]
fn oldest_first_order() {
    let mut c = ReviewCoordinator::new();
    let found = vec![mk_user(7, "late", 30), mk_user(5, "early", 10), mk_user(6, "mid", 20)];
    assert_eq!(c.next_candidate(&found).unwrap().id, 5);
    assert_eq!(c.next_candidate(&found).unwrap().id, 6);
    assert_eq!(c.next_candidate(&found).unwrap().id, 7);
}

#[test]
fn equal_timestamps_break_ties_by_id() {
    let mut c = ReviewCoordinator::new();
    let found = vec![mk_user(9, "x", 10), mk_user(4, "y", 10), mk_user(6, "z", 10)];
    assert_eq!(c.next_candidate(&found).unwrap().id, 4);
    assert_eq!(c.next_candidate(&found).unwrap().id, 6);
    assert_eq!(c.next_candidate(&found).unwrap().id, 9);
}

#[test]
fn claim_twice_by_same_caller_is_harmless() {
    let mut c = ReviewCoordinator::new();
    c.claim(42);
    c.claim(42);
    assert!(c.contains_claim(42));
    c.release(42);
    assert!(!c.contains_claim(42));
}

#[test]
fn claimed_user_is_never_assigned_to_another_caller() {
    let mut c = ReviewCoordinator::new();
    let found = vec![mk_user(1, "a", 10), mk_user(2, "b", 20)];
    c.claim(1);
    let picked = c.next_candidate(&found).unwrap();
    assert_eq!(picked.id, 2, "the claimed user must be skipped");
    assert!(c.next_candidate(&found).is_none());
}

#[test]
fn release_makes_oldest_available_again() {
    // Found users A (t=1), B (t=2), C (t=3): next -> A, next -> B,
    // release A, next -> A again while B stays claimed.
    let mut c = ReviewCoordinator::new();
    let found = vec![mk_user(1, "a", 1), mk_user(2, "b", 2), mk_user(3, "c", 3)];
    let first = c.next_candidate(&found).unwrap();
    assert_eq!(first.id, 1);
    let second = c.next_candidate(&found).unwrap();
    assert_eq!(second.id, 2);
    c.release(1);
    let third = c.next_candidate(&found).unwrap();
    assert_eq!(third.id, 1, "the released oldest user is assignable again");
    assert!(c.contains_claim(2), "the other claim is untouched");
}
