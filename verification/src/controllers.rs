//! Moderator-facing operations: fetching a user page, claiming the next
//! user to review, recording a review verdict, and editing profile fields.
//!
//! The verdict flow is split in two. [`review_user_update`] validates the
//! request and hands back a [`StatusChange`] plan; the host then performs
//! the external approval side effect exactly when the plan asks for an
//! approval, and finally calls [`complete_status_update`] with the outcome.
//! A failed or skipped external call therefore never leaves a persisted
//! `Approved` status, and an invalid request never reaches the external
//! call at all.

use vstd::prelude::*;

use vstd::string::StringExecFns;

use crate::action::{
    find_user_by_name, find_user_from_token, found_pred, get_found_users, get_user_by_name,
    get_user_from_auth_token, update_properties, update_status, CredentialStore, UserRepository,
};
use crate::apiresponse::ErrorKind;
use crate::coordinator::{earlier, ReviewCoordinator};
use crate::lookup::{lemma_filter_distinct_by_key, lemma_filter_elem};
use crate::models::{
    spec_status_from_str, status_from_str, string_eq_literal, Status, User, UserProperties,
};

verus! {

/// What the external identity provider reports about a user: profile
/// summary plus recent activity. Filled by the host from its provider
/// calls.
#[derive(Debug)]
pub struct RedditUser {
    pub name: String,
    pub avatar: String,
    pub comment_karma: i64,
    pub total_karma: i64,
    pub created: i64,
    pub top_five_posts: Vec<RedditPost>,
    pub top_five_comments: Vec<RedditPost>,
}

/// One submission in a profile summary.
#[derive(Debug, PartialEq)]
pub struct RedditPost {
    pub subreddit: String,
    pub url: String,
    pub id: String,
    pub title: String,
    pub content: String,
    pub score: i64,
}

/// Body of a profile-field update request.
#[derive(Debug, PartialEq)]
pub struct ChangeRequest {
    pub value: String,
}

/// Builds the post entry of a profile summary from the plain fields the
/// provider returned, deriving the canonical link from the submission id.
pub fn reddit_post_from_submission(
    subreddit: String,
    id: String,
    title: String,
    content: String,
    score: i64,
) -> (p: RedditPost)
    ensures
        p.subreddit == subreddit,
        p.url@ == "https://reddit.com/r/"@ + id@,
        p.id == id,
        p.title == title,
        p.content == content,
        p.score == score,
{
    let mut url: String = "https://reddit.com/r/".to_owned();
    url.append(id.as_str());
    RedditPost { subreddit, url, id, title, content, score }
}

/// Fetches a user record by name for a moderator: the caller must present
/// a valid token whose user holds the moderator capability; the lookup
/// result itself may be empty without being an error.
pub fn user_page(
    path_user: &String,
    auth_token: &String,
    repo: &UserRepository,
    store: &CredentialStore,
) -> (r: Result<Option<User>, ErrorKind>)
    ensures
        match find_user_from_token(store.tokens@, repo.users@, auth_token@) {
            None => r == Err::<Option<User>, ErrorKind>(ErrorKind::Unauthorized),
            Some(actor) => if !actor.permissions.moderator {
                r == Err::<Option<User>, ErrorKind>(ErrorKind::Unauthorized)
            } else {
                r == Ok::<Option<User>, ErrorKind>(find_user_by_name(repo.users@, path_user@))
            },
        },
{
    let actor = match get_user_from_auth_token(auth_token, store, repo) {
        None => {
            return Err(ErrorKind::Unauthorized);
        },
        Some(a) => a,
    };
    if !actor.permissions.moderator {
        return Err(ErrorKind::Unauthorized);
    }
    Ok(get_user_by_name(path_user, repo))
}

/// Claims and returns the user to look at next: the literal name
/// `next` asks for the oldest pending user no one else holds, anything
/// else names a specific user. Either way the returned user's id is
/// claimed in the coordinator; the host then fetches the profile summary
/// for it.
pub fn review_user(
    path_user: &String,
    auth_token: &String,
    repo: &UserRepository,
    store: &CredentialStore,
    rn: &mut ReviewCoordinator,
) -> (r: Result<User, ErrorKind>)
    requires
        repo.wf(),
        old(rn).wf(),
    ensures
        final(rn).wf(),
        match find_user_from_token(store.tokens@, repo.users@, auth_token@) {
            None => r == Err::<User, ErrorKind>(ErrorKind::Unauthorized) && *final(rn) == *old(
                rn,
            ),
            Some(actor) => if !actor.permissions.approve_user {
                r == Err::<User, ErrorKind>(ErrorKind::Unauthorized) && *final(rn) == *old(rn)
            } else if path_user@ == "next"@ {
                match r {
                    Ok(u) => repo.users@.contains(u) && u.status == Status::Found && !old(
                        rn,
                    ).is_claimed(u.id) && (forall|v: User|
                        repo.users@.contains(v) && v.status == Status::Found && !old(
                            rn,
                        ).is_claimed(v.id) && v != u ==> earlier(u, v)) && (forall|x: i64|
                        final(rn).is_claimed(x) == (old(rn).is_claimed(x) || x == u.id)),
                    Err(e) => e == ErrorKind::NotFound && (forall|v: User|
                        repo.users@.contains(v) && v.status == Status::Found ==> old(
                            rn,
                        ).is_claimed(v.id)) && *final(rn) == *old(rn),
                }
            } else {
                match find_user_by_name(repo.users@, path_user@) {
                    None => r == Err::<User, ErrorKind>(ErrorKind::NotFound) && *final(rn)
                        == *old(rn),
                    Some(u) => r == Ok::<User, ErrorKind>(u) && (forall|x: i64|
                        final(rn).is_claimed(x) == (old(rn).is_claimed(x) || x == u.id)),
                }
            },
        },
{
    let actor = match get_user_from_auth_token(auth_token, store, repo) {
        None => {
            return Err(ErrorKind::Unauthorized);
        },
        Some(a) => a,
    };
    if !actor.permissions.approve_user {
        return Err(ErrorKind::Unauthorized);
    }
    if string_eq_literal(path_user, "next") {
        let found = get_found_users(repo);
        proof {
            lemma_filter_distinct_by_key(repo.users@, found_pred(), |u: User| u.id);
        }
        match rn.next_candidate(&found) {
            None => {
                proof {
                    assert forall|v: User|
                        repo.users@.contains(v) && v.status == Status::Found implies old(
                        rn,
                    ).is_claimed(v.id) by {
                        let k = choose|k: int| 0 <= k < repo.users@.len() && repo.users@[k] == v;
                        repo.users@.lemma_filter_contains(found_pred(), k);
                    }
                }
                Err(ErrorKind::NotFound)
            },
            Some(u) => {
                proof {
                    let ku = choose|k: int| 0 <= k < found@.len() && found@[k] == u;
                    lemma_filter_elem(repo.users@, found_pred(), ku);
                    repo.users@.lemma_filter_pred(found_pred(), ku);
                    assert forall|v: User|
                        repo.users@.contains(v) && v.status == Status::Found && !old(
                        rn,
                    ).is_claimed(v.id) && v != u implies earlier(u, v) by {
                        let k = choose|k: int| 0 <= k < repo.users@.len() && repo.users@[k] == v;
                        repo.users@.lemma_filter_contains(found_pred(), k);
                    }
                }
                Ok(u)
            },
        }
    } else {
        match get_user_by_name(path_user, repo) {
            None => Err(ErrorKind::NotFound),
            Some(u) => {
                rn.claim(u.id);
                Ok(u)
            },
        }
    }
}

/// A checked status-change plan: which user moves to which status, and
/// thereby whether the external approval side effect must succeed first
/// (exactly when the status is `Approved`).
#[derive(Debug, PartialEq)]
pub struct StatusChange {
    pub user_id: i64,
    /// The target's external-identity username, for the approval call.
    pub username: String,
    pub status: Status,
}

/// How a verdict request must be answered: the plan, or the error. The
/// caller must be a valid approve-capable user, the target must exist, and
/// the requested status must read as `Approved` or `Denied`; any other
/// word — including `Found` — is invalid input, refused before anything
/// else happens.
pub open spec fn review_request_check(
    users: Seq<User>,
    tokens: Seq<crate::models::AuthToken>,
    token: Seq<char>,
    username: Seq<char>,
    status_str: Seq<char>,
) -> Result<StatusChange, ErrorKind> {
    match find_user_from_token(tokens, users, token) {
        None => Err(ErrorKind::Unauthorized),
        Some(actor) => if !actor.permissions.approve_user {
            Err(ErrorKind::Unauthorized)
        } else {
            match find_user_by_name(users, username) {
                None => Err(ErrorKind::NotFound),
                Some(target) => match spec_status_from_str(status_str) {
                    Some(Status::Approved) => Ok(
                        StatusChange {
                            user_id: target.id,
                            username: target.username,
                            status: Status::Approved,
                        },
                    ),
                    Some(Status::Denied) => Ok(
                        StatusChange {
                            user_id: target.id,
                            username: target.username,
                            status: Status::Denied,
                        },
                    ),
                    _ => Err(ErrorKind::BadRequest),
                },
            }
        },
    }
}

/// Validates a verdict request and returns the plan to execute. This step
/// only reads: nothing is persisted and no external call is made, so a
/// request refused here — in particular one whose status word is invalid —
/// has no effect of any kind.
pub fn review_user_update(
    username: &String,
    status: &String,
    auth_token: &String,
    repo: &UserRepository,
    store: &CredentialStore,
) -> (r: Result<StatusChange, ErrorKind>)
    ensures
        r == review_request_check(repo.users@, store.tokens@, auth_token@, username@, status@),
{
    let actor = match get_user_from_auth_token(auth_token, store, repo) {
        None => {
            return Err(ErrorKind::Unauthorized);
        },
        Some(a) => a,
    };
    if !actor.permissions.approve_user {
        return Err(ErrorKind::Unauthorized);
    }
    let target = match get_user_by_name(username, repo) {
        None => {
            return Err(ErrorKind::NotFound);
        },
        Some(t) => t,
    };
    match status_from_str(status) {
        Some(Status::Approved) => Ok(
            StatusChange {
                user_id: target.id,
                username: target.username,
                status: Status::Approved,
            },
        ),
        Some(Status::Denied) => Ok(
            StatusChange { user_id: target.id, username: target.username, status: Status::Denied },
        ),
        _ => Err(ErrorKind::BadRequest),
    }
}

/// Persists a validated verdict, given the outcome of the external
/// approval side effect. An approval whose external call did not succeed
/// is refused as an external-service error and changes no row, so a
/// persisted `Approved` status always implies the side effect succeeded; a
/// denial needs no external call. On success the target row carries the
/// new status, the deciding actor and the time, written in one step.
pub fn complete_status_update(
    change: &StatusChange,
    approval_ok: bool,
    actor: &String,
    now: i64,
    repo: &mut UserRepository,
) -> (r: Result<bool, ErrorKind>)
    requires
        old(repo).wf(),
    ensures
        final(repo).wf(),
        (change.status == Status::Approved && !approval_ok) ==> (r == Err::<bool, ErrorKind>(
            ErrorKind::ExternalServiceError,
        ) && final(repo).users@ == old(repo).users@),
        (change.status != Status::Approved || approval_ok) ==> (r == Ok::<bool, ErrorKind>(true)
            && final(repo).users@.len() == old(repo).users@.len() && (forall|i: int|
            0 <= i < old(repo).users@.len() ==> #[trigger] final(repo).users@[i] == (
            if old(repo).users@[i].id == change.user_id {
                User {
                    status: change.status,
                    reviewer: *actor,
                    status_changed: now,
                    ..old(repo).users@[i]
                }
            } else {
                old(repo).users@[i]
            }))),
{
    if matches!(change.status, Status::Approved) && !approval_ok {
        return Err(ErrorKind::ExternalServiceError);
    }
    update_status(&change.user_id, change.status, actor, now, repo);
    Ok(true)
}

/// Updates one editable profile field of a named user on behalf of a
/// moderator. Only `avatar` and `description` are editable; any other key
/// is invalid input and nothing is written.
pub fn moderator_update_properties(
    request: &ChangeRequest,
    username: &String,
    key: &String,
    auth_token: &String,
    repo: &mut UserRepository,
    store: &CredentialStore,
) -> (r: Result<bool, ErrorKind>)
    requires
        old(repo).wf(),
    ensures
        final(repo).wf(),
        match find_user_from_token(store.tokens@, old(repo).users@, auth_token@) {
            None => r == Err::<bool, ErrorKind>(ErrorKind::Unauthorized) && final(repo).users@
                == old(repo).users@,
            Some(actor) => if !actor.permissions.moderator {
                r == Err::<bool, ErrorKind>(ErrorKind::Unauthorized) && final(repo).users@ == old(
                    repo,
                ).users@
            } else {
                match find_user_by_name(old(repo).users@, username@) {
                    None => r == Err::<bool, ErrorKind>(ErrorKind::NotFound) && final(repo).users@
                        == old(repo).users@,
                    Some(target) => if key@ == "avatar"@ || key@ == "description"@ {
                        r == Ok::<bool, ErrorKind>(true) && final(repo).users@.len() == old(
                            repo,
                        ).users@.len() && (forall|i: int|
                            0 <= i < old(repo).users@.len() ==> #[trigger] final(repo).users@[i]
                                == (if old(repo).users@[i].id == target.id {
                                User {
                                    properties: (if key@ == "avatar"@ {
                                        UserProperties {
                                            avatar: request.value,
                                            description: target.properties.description,
                                        }
                                    } else {
                                        UserProperties {
                                            avatar: target.properties.avatar,
                                            description: request.value,
                                        }
                                    }),
                                    ..old(repo).users@[i]
                                }
                            } else {
                                old(repo).users@[i]
                            }))
                    } else {
                        r == Err::<bool, ErrorKind>(ErrorKind::BadRequest) && final(repo).users@
                            == old(repo).users@
                    },
                }
            },
        },
{
    let actor = match get_user_from_auth_token(auth_token, store, repo) {
        None => {
            return Err(ErrorKind::Unauthorized);
        },
        Some(a) => a,
    };
    if !actor.permissions.moderator {
        return Err(ErrorKind::Unauthorized);
    }
    let target = match get_user_by_name(username, repo) {
        None => {
            return Err(ErrorKind::NotFound);
        },
        Some(t) => t,
    };
    let mut props = target.properties.clone();
    if string_eq_literal(key, "avatar") {
        props.set_avatar(request.value.clone());
    } else if string_eq_literal(key, "description") {
        props.set_description(request.value.clone());
    } else {
        return Err(ErrorKind::BadRequest);
    }
    update_properties(&target.id, props, repo);
    Ok(true)
}

} // verus!
