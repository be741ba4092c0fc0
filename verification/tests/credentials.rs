use mod_review::action::{get_opt, opt_exist, CredentialStore, UserRepository};
use mod_review::apiresponse::ErrorKind;
use mod_review::login::{
    create_token, login, me, one_time_password, one_time_password_create, CreateOTP, Login,
    UseOTP, AUTH_TOKEN_LENGTH, OTP_CODE_LENGTH, OTP_LIFETIME,
};
use mod_review::models::{Permissions, Status, User, UserProperties};

fn empty_store() -> CredentialStore {
    CredentialStore { tokens: Vec::new(), otps: Vec::new() }
}

fn mk_user(id: i64, name: &str, status: Status, login_cap: bool, password_hash: &str) -> User {
    User {
        id,
        discord_id: 0,
        username: name.to_string(),
        password: password_hash.to_string(),
        permissions: Permissions { moderator: false, approve_user: false, login: login_cap },
        status,
        status_changed: 0,
        discoverer: String::new(),
        reviewer: String::new(),
        properties: UserProperties { avatar: String::new(), description: String::new() },
        created: 0,
    }
}

fn approved_repo(hash: &str) -> UserRepository {
    UserRepository { users: vec![mk_user(1, "alice", Status::Approved, true, hash)] }
}

#[test]
fn login_success_issues_token_bound_to_user() {
    let hash = bcrypt::hash("hunter2", 4).unwrap();
    let repo = approved_repo(&hash);
    let mut store = empty_store();
    let req = Login { username: "alice".to_string(), password: "hunter2".to_string() };
    let t = login(&req, &repo, &mut store, 99).expect("correct password must log in");
    assert_eq!(t.user, 1);
    assert_eq!(t.created, 99);
    assert_eq!(t.token.chars().count(), AUTH_TOKEN_LENGTH);
    assert_eq!(store.tokens.len(), 1);
}

#[test]
fn login_failures_are_indistinguishable() {
    let hash = bcrypt::hash("hunter2", 4).unwrap();
    let repo = approved_repo(&hash);
    let mut store = empty_store();
    let wrong_password = Login { username: "alice".to_string(), password: "wrong".to_string() };
    let unknown_user = Login { username: "nobody".to_string(), password: "hunter2".to_string() };
    let r1 = login(&wrong_password, &repo, &mut store, 99);
    let r2 = login(&unknown_user, &repo, &mut store, 99);
    assert_eq!(r1, Err(ErrorKind::Unauthorized));
    assert_eq!(r2, Err(ErrorKind::Unauthorized));
    assert_eq!(r1, r2, "the two rejections must be the identical signal");
    assert!(store.tokens.is_empty(), "no token may be issued on failure");
}

#[test]
fn login_requires_approved_status_and_login_capability() {
    let hash = bcrypt::hash("pw", 4).unwrap();
    let mut store = empty_store();
    let req = Login { username: "alice".to_string(), password: "pw".to_string() };

    let found = UserRepository { users: vec![mk_user(1, "alice", Status::Found, true, &hash)] };
    assert_eq!(login(&req, &found, &mut store, 1), Err(ErrorKind::Unauthorized));

    let no_cap = UserRepository {
        users: vec![mk_user(1, "alice", Status::Approved, false, &hash)],
    };
    assert_eq!(login(&req, &no_cap, &mut store, 1), Err(ErrorKind::Unauthorized));
}

#[test]
fn unreadable_stored_hash_is_an_internal_error() {
    let repo = approved_repo("not-a-bcrypt-hash");
    let mut store = empty_store();
    let req = Login { username: "alice".to_string(), password: "anything".to_string() };
    assert_eq!(login(&req, &repo, &mut store, 1), Err(ErrorKind::Internal));
    assert!(store.tokens.is_empty());
}

#[test]
fn me_resolves_token_and_rejects_unknown() {
    let repo = approved_repo("x");
    let mut store = empty_store();
    let t = create_token(&repo.users[0], &mut store, 5);
    let found = me(&t.token, &repo, &store).expect("a valid token names its user");
    assert_eq!(found.id, 1);
    assert_eq!(
        me(&"missing".to_string(), &repo, &store),
        Err(ErrorKind::Unauthorized)
    );
}

#[test]
fn otp_redeems_exactly_once() {
    let hash = bcrypt::hash("pw", 4).unwrap();
    let repo = approved_repo(&hash);
    let mut store = empty_store();
    let req = CreateOTP { username: "alice".to_string() };
    let code = one_time_password_create(&req, &repo, &mut store, 100).expect("eligible user");
    assert_eq!(code.chars().count(), OTP_CODE_LENGTH);
    assert_eq!(store.otps.len(), 1);
    assert_eq!(store.otps[0].expiration, 100 + OTP_LIFETIME);

    let use_req = UseOTP { username: "alice".to_string(), otp: code.clone() };
    let t = one_time_password(&use_req, &repo, &mut store, 150).expect("first redemption");
    assert_eq!(t.user, 1);
    assert!(store.otps.is_empty(), "the redeemed code must be deleted");

    let again = one_time_password(&use_req, &repo, &mut store, 151);
    assert_eq!(again, Err(ErrorKind::NotFound), "second redemption fails as not found");
}

#[test]
fn second_outstanding_code_stays_valid() {
    let repo = approved_repo("h");
    let mut store = empty_store();
    let req = CreateOTP { username: "alice".to_string() };
    let code1 = one_time_password_create(&req, &repo, &mut store, 100).unwrap();
    let code2 = one_time_password_create(&req, &repo, &mut store, 100).unwrap();
    assert_eq!(store.otps.len(), 2);

    let use1 = UseOTP { username: "alice".to_string(), otp: code1.clone() };
    one_time_password(&use1, &repo, &mut store, 120).expect("first code redeems");
    assert_eq!(store.otps.len(), 1, "only the redeemed code is invalidated");
    assert!(opt_exist(&code2, &store), "the second code is still stored");

    let use2 = UseOTP { username: "alice".to_string(), otp: code2.clone() };
    one_time_password(&use2, &repo, &mut store, 130).expect("second code redeems on its own");
    assert!(store.otps.is_empty());
}

#[test]
fn expired_code_is_consumed_and_reported_not_found() {
    let repo = approved_repo("h");
    let mut store = empty_store();
    let req = CreateOTP { username: "alice".to_string() };
    let code = one_time_password_create(&req, &repo, &mut store, 100).unwrap();
    let use_req = UseOTP { username: "alice".to_string(), otp: code.clone() };
    let late = 100 + OTP_LIFETIME + 1;
    assert_eq!(one_time_password(&use_req, &repo, &mut store, late), Err(ErrorKind::NotFound));
    assert!(store.otps.is_empty(), "an expired code is deleted on sight");
    assert!(store.tokens.is_empty());
}

#[test]
fn otp_creation_refused_for_ineligible_users() {
    let mut store = empty_store();
    let req = CreateOTP { username: "alice".to_string() };

    let pending = UserRepository { users: vec![mk_user(1, "alice", Status::Found, true, "h")] };
    assert_eq!(
        one_time_password_create(&req, &pending, &mut store, 100),
        Err(ErrorKind::Unauthorized)
    );

    let unknown = UserRepository { users: Vec::new() };
    assert_eq!(
        one_time_password_create(&req, &unknown, &mut store, 100),
        Err(ErrorKind::Unauthorized)
    );
    assert!(store.otps.is_empty(), "nothing may be stored on refusal");
}

#[test]
fn redeeming_valid_code_of_ineligible_user_is_unauthorized_and_keeps_row() {
    let mut store = empty_store();
    let issuing_repo = approved_repo("h");
    let req = CreateOTP { username: "alice".to_string() };
    let code = one_time_password_create(&req, &issuing_repo, &mut store, 100).unwrap();

    // The user was denied between issuance and redemption.
    let denied_repo = UserRepository {
        users: vec![mk_user(1, "alice", Status::Denied, true, "h")],
    };
    let use_req = UseOTP { username: "alice".to_string(), otp: code };
    assert_eq!(
        one_time_password(&use_req, &denied_repo, &mut store, 120),
        Err(ErrorKind::Unauthorized)
    );
    assert_eq!(store.otps.len(), 1, "the code was valid; only the user check failed");
}

#[test]
fn unknown_code_is_not_found() {
    let repo = approved_repo("h");
    let mut store = empty_store();
    let use_req = UseOTP { username: "alice".to_string(), otp: "nocode".to_string() };
    assert_eq!(one_time_password(&use_req, &repo, &mut store, 10), Err(ErrorKind::NotFound));
}

#[test]
fn generated_codes_are_fresh_rows() {
    let repo = approved_repo("h");
    let mut store = empty_store();
    let req = CreateOTP { username: "alice".to_string() };
    let c1 = one_time_password_create(&req, &repo, &mut store, 100).unwrap();
    let c2 = one_time_password_create(&req, &repo, &mut store, 100).unwrap();
    assert_ne!(store.otps[0].id, store.otps[1].id, "row ids must differ");
    assert!(get_opt(&c1, &store).is_some());
    assert!(get_opt(&c2, &store).is_some());
}
