use mod_review::action::{
    add_new_auth_token, add_new_user, add_opt, delete_otp, delete_user, get_auth_token, get_opt,
    get_team_user, get_user_by_id, get_user_by_name, get_user_from_auth_token, get_users,
    get_found_users, opt_exist, update_password, update_properties, update_status, update_user,
    CredentialStore, UserRepository,
};
use mod_review::apiresponse::{error_details, APIResponse, ErrorKind};
use mod_review::models::{
    status_as_str, status_from_str, AuthToken, Permissions, Status, User, UserProperties, OTP,
};

fn mk_user(id: i64, name: &str, status: Status) -> User {
    User {
        id,
        discord_id: 0,
        username: name.to_string(),
        password: "hash".to_string(),
        permissions: Permissions { moderator: false, approve_user: false, login: true },
        status,
        status_changed: 0,
        discoverer: "finder".to_string(),
        reviewer: String::new(),
        properties: UserProperties { avatar: String::new(), description: String::new() },
        created: 5,
    }
}

#[test]
fn add_and_look_up_users() {
    let mut repo = UserRepository { users: Vec::new() };
    add_new_user(&mk_user(1, "a", Status::Found), &mut repo);
    add_new_user(&mk_user(2, "b", Status::Approved), &mut repo);
    assert_eq!(get_user_by_name(&"a".to_string(), &repo).unwrap().id, 1);
    assert!(get_user_by_name(&"c".to_string(), &repo).is_none());
    assert_eq!(get_user_by_id(&2, &repo).unwrap().username, "b".to_string());
    assert!(get_user_by_id(&3, &repo).is_none());
    assert_eq!(get_users(&repo).len(), 2);
}

#[test]
fn found_users_filters_by_status() {
    let mut repo = UserRepository { users: Vec::new() };
    add_new_user(&mk_user(1, "a", Status::Found), &mut repo);
    add_new_user(&mk_user(2, "b", Status::Approved), &mut repo);
    add_new_user(&mk_user(3, "c", Status::Found), &mut repo);
    let found = get_found_users(&repo);
    let ids: Vec<i64> = found.iter().map(|u| u.id).collect();
    assert_eq!(ids, vec![1, 3]);
}

#[test]
fn delete_user_removes_only_that_row() {
    let mut repo = UserRepository { users: Vec::new() };
    add_new_user(&mk_user(1, "a", Status::Found), &mut repo);
    add_new_user(&mk_user(2, "b", Status::Found), &mut repo);
    delete_user(&1, &mut repo);
    assert!(get_user_by_id(&1, &repo).is_none());
    assert!(get_user_by_id(&2, &repo).is_some());
}

#[test]
fn updates_write_the_named_columns() {
    let mut repo = UserRepository { users: Vec::new() };
    add_new_user(&mk_user(1, "a", Status::Found), &mut repo);

    let mut edited = mk_user(1, "ignored-name", Status::Approved);
    edited.password = "newhash".to_string();
    edited.discoverer = "other".to_string();
    update_user(&edited, &mut repo);
    let row = get_user_by_id(&1, &repo).unwrap();
    assert_eq!(row.username, "a".to_string(), "the username column never changes");
    assert_eq!(row.status, Status::Approved);
    assert_eq!(row.password, "newhash".to_string());
    assert_eq!(row.discoverer, "other".to_string());

    update_password(&1, "again".to_string(), &mut repo);
    assert_eq!(get_user_by_id(&1, &repo).unwrap().password, "again".to_string());

    update_properties(
        &1,
        UserProperties { avatar: "pic".to_string(), description: "d".to_string() },
        &mut repo,
    );
    assert_eq!(get_user_by_id(&1, &repo).unwrap().properties.avatar, "pic".to_string());

    update_status(&1, Status::Denied, &"judge".to_string(), 44, &mut repo);
    let row = get_user_by_id(&1, &repo).unwrap();
    assert_eq!(row.status, Status::Denied);
    assert_eq!(row.reviewer, "judge".to_string());
    assert_eq!(row.status_changed, 44);
}

#[test]
fn token_rows_resolve_to_users() {
    let mut repo = UserRepository { users: Vec::new() };
    add_new_user(&mk_user(9, "owner", Status::Approved), &mut repo);
    let mut store = CredentialStore { tokens: Vec::new(), otps: Vec::new() };
    let t = AuthToken { id: 0, user: 9, token: "opaque".to_string(), created: 3 };
    add_new_auth_token(&t, &mut store);
    assert_eq!(get_auth_token(&"opaque".to_string(), &store).unwrap().user, 9);
    assert!(get_auth_token(&"other".to_string(), &store).is_none());
    let u = get_user_from_auth_token(&"opaque".to_string(), &store, &repo).unwrap();
    assert_eq!(u.id, 9);
    assert!(get_user_from_auth_token(&"other".to_string(), &store, &repo).is_none());
}

#[test]
fn otp_rows_round_trip() {
    let mut store = CredentialStore { tokens: Vec::new(), otps: Vec::new() };
    let row = OTP { id: 0, user: 9, password: "code99".to_string(), expiration: 700, created: 100 };
    add_opt(&row, &mut store);
    assert!(opt_exist(&"code99".to_string(), &store));
    assert_eq!(get_opt(&"code99".to_string(), &store).unwrap().user, 9);
    assert!(get_opt(&"nope".to_string(), &store).is_none());
    delete_otp(0, &mut store);
    assert!(!opt_exist(&"code99".to_string(), &store));
}

#[test]
fn team_user_is_the_profile_slice() {
    let mut repo = UserRepository { users: Vec::new() };
    let mut u = mk_user(4, "teammate", Status::Approved);
    u.properties.description = "hi".to_string();
    add_new_user(&u, &mut repo);
    let t = get_team_user(&4, &repo).unwrap();
    assert_eq!(t.username, "teammate".to_string());
    assert_eq!(t.properties.description, "hi".to_string());
    assert!(get_team_user(&5, &repo).is_none());
}

#[test]
fn status_names_round_trip() {
    for s in [Status::Found, Status::Approved, Status::Denied] {
        let name = status_as_str(&s);
        assert_eq!(status_from_str(&name), Some(s));
    }
    assert_eq!(status_from_str(&"approved".to_string()), None, "names are case-sensitive");
    assert_eq!(status_from_str(&String::new()), None);
}

#[test]
fn response_envelope_and_error_details() {
    let ok = APIResponse::new(true, Some(5));
    assert!(ok.success);
    assert_eq!(ok.data, Some(5));
    let empty: APIResponse<i64> = APIResponse::new(false, None);
    assert!(!empty.success);
    assert!(empty.data.is_none());

    let e = error_details(&ErrorKind::Unauthorized);
    assert_eq!(e.status_code, Some(401));
    assert_eq!(e.error_code, Some("unauthorized".to_string()));
    assert!(e.user_friendly_message.is_none());
    assert_eq!(error_details(&ErrorKind::NotFound).status_code, Some(404));
    assert_eq!(error_details(&ErrorKind::BadRequest).status_code, Some(400));
    assert_eq!(error_details(&ErrorKind::ExternalServiceError).status_code, Some(500));
    assert_eq!(error_details(&ErrorKind::Internal).status_code, Some(500));
}
