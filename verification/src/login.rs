//! The credential service: password login, auth-token issuance, and the
//! one-time-password lifecycle (issue, deliver out of band, redeem once).

use vstd::prelude::*;

use rand::distr::{Alphanumeric, SampleString};

use crate::action::{
    add_new_auth_token, add_opt, delete_otp, find_otp, find_user_by_id, find_user_by_name,
    find_user_from_token, get_opt, get_user_by_id, get_user_by_name, get_user_from_auth_token,
    otp_code_pred, otp_keep_pred, CredentialStore, UserRepository,
};
use crate::apiresponse::ErrorKind;
use crate::lookup::{lemma_filter_elem, lemma_first_match_none, lemma_first_match_some};
use crate::models::{AuthToken, Status, User, OTP};

verus! {

/// Length of the opaque credential string of an auth token.
pub const AUTH_TOKEN_LENGTH: usize = 64;

/// Length of a one-time code.
pub const OTP_CODE_LENGTH: usize = 8;

/// How long a one-time code stays redeemable after creation.
pub const OTP_LIFETIME: i64 = 600;

/// Body of a password login request.
#[derive(Debug, PartialEq)]
pub struct Login {
    pub username: String,
    pub password: String,
}

/// Body of a request to create and deliver a one-time password.
#[derive(Debug, PartialEq)]
pub struct CreateOTP {
    pub username: String,
}

/// Body of a one-time-password redemption request.
#[derive(Debug, PartialEq)]
pub struct UseOTP {
    pub username: String,
    pub otp: String,
}

/// What verifying `password` against the stored `hash` yields: a match or
/// not, or `None` where the hash cannot be read at all. A function of the
/// two strings alone.
pub uninterp spec fn verify_outcome(password: Seq<char>, hash: Seq<char>) -> Option<bool>;

/// Relies on bcrypt::verify: it recomputes the hash of `password` with the
/// cost and salt embedded in `hash` and compares the two, so the outcome
/// depends on the two arguments alone; its error (an unreadable hash)
/// becomes `None`.
#[verifier::external_body]
fn verify_password(password: &String, hash: &String) -> (r: Option<bool>)
    ensures
        r == verify_outcome(password@, hash@),
{
    match bcrypt::verify(password.as_str(), hash.as_str()) {
        Ok(b) => Some(b),
        Err(_) => None,
    }
}

/// Relies on rand's `Alphanumeric` distribution: `sample_string` draws
/// exactly `len` alphanumeric ASCII characters from the thread's generator.
/// The value depends on the generator's state, so nothing beyond the length
/// is promised.
#[verifier::external_body]
fn random_code(len: usize) -> (r: String)
    ensures
        r@.len() == len as nat,
{
    Alphanumeric.sample_string(&mut rand::rng(), len)
}

/// Every auth token id still has room above it for a fresh id.
pub open spec fn token_ids_headroom(store: CredentialStore) -> bool {
    forall|i: int| 0 <= i < store.tokens@.len() ==> (#[trigger] store.tokens@[i]).id < i64::MAX
}

/// Every one-time-password id still has room above it for a fresh id.
pub open spec fn otp_ids_headroom(store: CredentialStore) -> bool {
    forall|i: int| 0 <= i < store.otps@.len() ==> (#[trigger] store.otps@[i]).id < i64::MAX
}

/// An id strictly above every auth token id in the store.
fn fresh_token_id(store: &CredentialStore) -> (id: i64)
    requires
        store.wf(),
        token_ids_headroom(*store),
    ensures
        id >= 0,
        forall|i: int| 0 <= i < store.tokens@.len() ==> (#[trigger] store.tokens@[i]).id < id,
{
    let n = store.tokens.len();
    let mut m: i64 = 0;
    let mut i: usize = 0;
    while i < n
        invariant
            n == store.tokens@.len(),
            i <= n,
            0 <= m < i64::MAX,
            token_ids_headroom(*store),
            forall|k: int| 0 <= k < i ==> (#[trigger] store.tokens@[k]).id <= m,
        decreases n - i,
    {
        if store.tokens[i].id > m {
            m = store.tokens[i].id;
        }
        i = i + 1;
    }
    m + 1
}

/// An id strictly above every one-time-password id in the store.
fn fresh_otp_id(store: &CredentialStore) -> (id: i64)
    requires
        store.wf(),
        otp_ids_headroom(*store),
    ensures
        id >= 0,
        forall|i: int| 0 <= i < store.otps@.len() ==> (#[trigger] store.otps@[i]).id < id,
{
    let n = store.otps.len();
    let mut m: i64 = 0;
    let mut i: usize = 0;
    while i < n
        invariant
            n == store.otps@.len(),
            i <= n,
            0 <= m < i64::MAX,
            otp_ids_headroom(*store),
            forall|k: int| 0 <= k < i ==> (#[trigger] store.otps@[k]).id <= m,
        decreases n - i,
    {
        if store.otps[i].id > m {
            m = store.otps[i].id;
        }
        i = i + 1;
    }
    m + 1
}

/// Issues an auth token for a user: a fresh row with a random opaque
/// credential string, bound to the user's id and stamped with `now`.
pub fn create_token(user: &User, store: &mut CredentialStore, now: i64) -> (t: AuthToken)
    requires
        old(store).wf(),
        token_ids_headroom(*old(store)),
    ensures
        final(store).wf(),
        t.user == user.id,
        t.created == now,
        t.token@.len() == AUTH_TOKEN_LENGTH as nat,
        final(store).tokens@ == old(store).tokens@.push(t),
        final(store).otps@ == old(store).otps@,
{
    let id = fresh_token_id(store);
    let token = random_code(AUTH_TOKEN_LENGTH);
    let t = AuthToken { id, user: user.id, token, created: now };
    add_new_auth_token(&t, store);
    t
}

/// Creates a one-time password for a user id: a fresh row carrying a random
/// code that expires `OTP_LIFETIME` after `now`. Returns the code, which the
/// host must deliver to the user out of band.
pub fn generate_otp(user: &i64, now: i64, store: &mut CredentialStore) -> (code: String)
    requires
        old(store).wf(),
        otp_ids_headroom(*old(store)),
        0 <= now <= i64::MAX - OTP_LIFETIME,
    ensures
        final(store).wf(),
        code@.len() == OTP_CODE_LENGTH as nat,
        final(store).tokens@ == old(store).tokens@,
        final(store).otps@.len() == old(store).otps@.len() + 1,
        forall|i: int|
            0 <= i < old(store).otps@.len() ==> final(store).otps@[i] == old(store).otps@[i],
        final(store).otps@.last().user == *user,
        final(store).otps@.last().password == code,
        final(store).otps@.last().expiration == now + OTP_LIFETIME,
        final(store).otps@.last().created == now,
{
    let id = fresh_otp_id(store);
    let code = random_code(OTP_CODE_LENGTH);
    let row = OTP {
        id,
        user: *user,
        password: code.clone(),
        expiration: now + OTP_LIFETIME,
        created: now,
    };
    add_opt(&row, store);
    code
}

/// Returns the caller's own user record, resolved from the presented auth
/// token; an unknown token is unauthorized.
pub fn me(auth_token: &String, repo: &UserRepository, store: &CredentialStore) -> (r: Result<
    User,
    ErrorKind,
>)
    ensures
        match find_user_from_token(store.tokens@, repo.users@, auth_token@) {
            None => r == Err::<User, ErrorKind>(ErrorKind::Unauthorized),
            Some(u) => r == Ok::<User, ErrorKind>(u),
        },
{
    match get_user_from_auth_token(auth_token, store, repo) {
        None => Err(ErrorKind::Unauthorized),
        Some(u) => Ok(u),
    }
}

/// How a password login must end: who logs in, or with which error. Every
/// failing path yields the same `Unauthorized` value, whether the username
/// is unknown, the user is not approved or not login-capable, or the
/// password does not match, so the result never betrays which was the case.
pub open spec fn login_check(users: Seq<User>, name: Seq<char>, pw: Seq<char>) -> Result<
    User,
    ErrorKind,
> {
    match find_user_by_name(users, name) {
        None => Err(ErrorKind::Unauthorized),
        Some(u) => if u.status != Status::Approved || !u.permissions.login {
            Err(ErrorKind::Unauthorized)
        } else {
            match verify_outcome(pw, u.password@) {
                None => Err(ErrorKind::Internal),
                Some(false) => Err(ErrorKind::Unauthorized),
                Some(true) => Ok(u),
            }
        },
    }
}

/// Password login: on the outcome `login_check` prescribes, either issues a
/// token for the matched user or returns the prescribed error and leaves
/// the store untouched.
pub fn login(request: &Login, repo: &UserRepository, store: &mut CredentialStore, now: i64) -> (r:
    Result<AuthToken, ErrorKind>)
    requires
        old(store).wf(),
        token_ids_headroom(*old(store)),
    ensures
        final(store).wf(),
        final(store).otps@ == old(store).otps@,
        match login_check(repo.users@, request.username@, request.password@) {
            Err(e) => r == Err::<AuthToken, ErrorKind>(e) && final(store).tokens@ == old(store).tokens@,
            Ok(u) => match r {
                Ok(t) => t.user == u.id && t.created == now && t.token@.len()
                    == AUTH_TOKEN_LENGTH as nat && final(store).tokens@ == old(store).tokens@.push(t),
                Err(_) => false,
            },
        },
{
    let user = match get_user_by_name(&request.username, repo) {
        None => {
            return Err(ErrorKind::Unauthorized);
        },
        Some(u) => u,
    };
    if !matches!(user.status, Status::Approved) || !user.permissions.login {
        return Err(ErrorKind::Unauthorized);
    }
    match verify_password(&request.password, &user.password) {
        None => Err(ErrorKind::Internal),
        Some(false) => Err(ErrorKind::Unauthorized),
        Some(true) => Ok(create_token(&user, store, now)),
    }
}

/// Creates and returns a one-time code for the named user, provided that
/// user is approved and login-capable; anything else is unauthorized, with
/// nothing stored. The host delivers the returned code out of band and must
/// not show it to the caller.
pub fn one_time_password_create(
    otp_request: &CreateOTP,
    repo: &UserRepository,
    store: &mut CredentialStore,
    now: i64,
) -> (r: Result<String, ErrorKind>)
    requires
        old(store).wf(),
        otp_ids_headroom(*old(store)),
        0 <= now <= i64::MAX - OTP_LIFETIME,
    ensures
        final(store).wf(),
        final(store).tokens@ == old(store).tokens@,
        match find_user_by_name(repo.users@, otp_request.username@) {
            None => r == Err::<String, ErrorKind>(ErrorKind::Unauthorized) && final(store).otps@
                == old(store).otps@,
            Some(u) => if u.status != Status::Approved || !u.permissions.login {
                r == Err::<String, ErrorKind>(ErrorKind::Unauthorized) && final(store).otps@
                    == old(store).otps@
            } else {
                match r {
                    Ok(code) => code@.len() == OTP_CODE_LENGTH as nat && final(store).otps@.len()
                        == old(store).otps@.len() + 1 && (forall|i: int|
                        0 <= i < old(store).otps@.len() ==> final(store).otps@[i] == old(store).otps@[i]) && final(store).otps@.last().user == u.id && final(store).otps@.last().password == code && final(store).otps@.last().expiration == now
                        + OTP_LIFETIME && final(store).otps@.last().created == now,
                    Err(_) => false,
                }
            },
        },
{
    let user = match get_user_by_name(&otp_request.username, repo) {
        None => {
            return Err(ErrorKind::Unauthorized);
        },
        Some(u) => u,
    };
    if !matches!(user.status, Status::Approved) || !user.permissions.login {
        return Err(ErrorKind::Unauthorized);
    }
    let code = generate_otp(&user.id, now, store);
    Ok(code)
}

/// Redeems a one-time code: finds the row, treats a missing or expired code
/// as not found (an expired row is consumed on sight), requires the bound
/// user to still be approved and login-capable, and only then deletes the
/// row and issues a token — so a second redemption of the same code fails
/// as not found.
pub fn one_time_password(
    otp: &UseOTP,
    repo: &UserRepository,
    store: &mut CredentialStore,
    now: i64,
) -> (r: Result<AuthToken, ErrorKind>)
    requires
        old(store).wf(),
        token_ids_headroom(*old(store)),
    ensures
        final(store).wf(),
        match find_otp(old(store).otps@, otp.otp@) {
            None => r == Err::<AuthToken, ErrorKind>(ErrorKind::NotFound) && final(store).otps@
                == old(store).otps@ && final(store).tokens@ == old(store).tokens@,
            Some(o) => if o.expiration < now {
                r == Err::<AuthToken, ErrorKind>(ErrorKind::NotFound) && final(store).otps@ == old(store).otps@.filter(otp_keep_pred(o.id)) && final(store).tokens@ == old(store).tokens@
            } else {
                match find_user_by_id(repo.users@, o.user) {
                    None => r == Err::<AuthToken, ErrorKind>(ErrorKind::Unauthorized) && final(store).otps@ == old(store).otps@ && final(store).tokens@ == old(store).tokens@,
                    Some(u) => if u.status != Status::Approved || !u.permissions.login {
                        r == Err::<AuthToken, ErrorKind>(ErrorKind::Unauthorized) && final(store).otps@ == old(store).otps@ && final(store).tokens@ == old(store).tokens@
                    } else {
                        match r {
                            Ok(t) => t.user == u.id && t.created == now && t.token@.len()
                                == AUTH_TOKEN_LENGTH as nat && final(store).otps@ == old(store).otps@.filter(otp_keep_pred(o.id)) && final(store).tokens@ == old(store).tokens@.push(t),
                            Err(_) => false,
                        }
                    },
                }
            },
        },
{
    let row = match get_opt(&otp.otp, store) {
        None => {
            return Err(ErrorKind::NotFound);
        },
        Some(o) => o,
    };
    if row.expiration < now {
        delete_otp(row.id, store);
        return Err(ErrorKind::NotFound);
    }
    let user = match get_user_by_id(&row.user, repo) {
        None => {
            return Err(ErrorKind::Unauthorized);
        },
        Some(u) => u,
    };
    if !matches!(user.status, Status::Approved) || !user.permissions.login {
        return Err(ErrorKind::Unauthorized);
    }
    delete_otp(row.id, store);
    let t = create_token(&user, store, now);
    Ok(t)
}

/// Law: a one-time code is redeemable at most once. When redemption found
/// row `o` for a code that names no other row, the store that remains after
/// the row's deletion no longer answers for that code, so a second
/// redemption fails as not found.
pub proof fn lemma_otp_single_use(otps: Seq<OTP>, code: Seq<char>, o: OTP)
    requires
        find_otp(otps, code) == Some(o),
        forall|i: int, j: int|
            0 <= i < otps.len() && 0 <= j < otps.len() && (#[trigger] otps[i]).password@ == code
                && (#[trigger] otps[j]).password@ == code ==> i == j,
    ensures
        find_otp(otps.filter(otp_keep_pred(o.id)), code) is None,
{
    lemma_first_match_some(otps, otp_code_pred(code), o);
    let io = choose|k: int| 0 <= k < otps.len() && otps[k] == o;
    let f = otps.filter(otp_keep_pred(o.id));
    assert forall|k: int| 0 <= k < f.len() implies !otp_code_pred(code)(f[k]) by {
        lemma_filter_elem(otps, otp_keep_pred(o.id), k);
        let idx = choose|m: int| 0 <= m < otps.len() && otps[m] == f[k];
        assert(otps[idx] == f[k]);
        if f[k].password@ == code {
            assert(otps[io].password@ == code);
            assert(idx == io);
            assert(f[k] == o);
            assert(otp_keep_pred(o.id)(f[k]));
        }
    }
    lemma_first_match_none(f, otp_code_pred(code));
}

/// Law: redeeming one code removes only that code's row. Any row with a
/// different id — in particular a second outstanding code for the same user
/// — survives the deletion and stays redeemable on its own terms.
pub proof fn lemma_redeem_leaves_other_codes(otps: Seq<OTP>, deleted: i64, other: OTP)
    requires
        otps.contains(other),
        other.id != deleted,
    ensures
        otps.filter(otp_keep_pred(deleted)).contains(other),
{
    let k = choose|k: int| 0 <= k < otps.len() && otps[k] == other;
    otps.lemma_filter_contains(otp_keep_pred(deleted), k);
}

/// Law: a login that fails because the username is unknown and one that
/// fails because the password does not match an approved, login-capable
/// user end in the very same error value; the caller cannot tell the two
/// apart.
pub proof fn lemma_login_rejections_identical(
    users1: Seq<User>,
    name1: Seq<char>,
    pw1: Seq<char>,
    users2: Seq<User>,
    name2: Seq<char>,
    pw2: Seq<char>,
    u: User,
)
    requires
        find_user_by_name(users1, name1) is None,
        find_user_by_name(users2, name2) == Some(u),
        u.status == Status::Approved,
        u.permissions.login,
        verify_outcome(pw2, u.password@) == Some(false),
    ensures
        login_check(users1, name1, pw1) == login_check(users2, name2, pw2),
        login_check(users1, name1, pw1) == Err::<User, ErrorKind>(ErrorKind::Unauthorized),
{
}

} // verus!
