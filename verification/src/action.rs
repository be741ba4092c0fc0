//! The in-memory stores behind the service: user rows on one side, auth
//! tokens and one-time passwords on the other. A host keeps them in sync
//! with its durable storage; every read and write here is exact about what
//! it returns or changes.

use vstd::prelude::*;

use crate::lookup::{
    first_match, lemma_filter_distinct_by_key, lemma_filter_elem, lemma_first_match_here,
    lemma_first_match_none, lemma_first_match_skip,
};
use crate::models::{AuthToken, Status, TeamUser, User, UserProperties, OTP};

verus! {

/// Selects a user row by name.
pub open spec fn user_name_pred(name: Seq<char>) -> spec_fn(User) -> bool {
    |u: User| u.username@ == name
}

/// Selects a user row by id.
pub open spec fn user_id_pred(id: i64) -> spec_fn(User) -> bool {
    |u: User| u.id == id
}

/// Selects the rows that survive deleting a user id.
pub open spec fn user_keep_pred(id: i64) -> spec_fn(User) -> bool {
    |u: User| u.id != id
}

/// Selects the pending rows a moderator may review.
pub open spec fn found_pred() -> spec_fn(User) -> bool {
    |u: User| u.status == Status::Found
}

/// Selects an auth token row by its credential string.
pub open spec fn token_pred(token: Seq<char>) -> spec_fn(AuthToken) -> bool {
    |t: AuthToken| t.token@ == token
}

/// Selects a one-time password row by its code.
pub open spec fn otp_code_pred(code: Seq<char>) -> spec_fn(OTP) -> bool {
    |o: OTP| o.password@ == code
}

/// Selects the rows that survive deleting a one-time password id.
pub open spec fn otp_keep_pred(id: i64) -> spec_fn(OTP) -> bool {
    |o: OTP| o.id != id
}

/// The user row a name denotes, if any.
pub open spec fn find_user_by_name(users: Seq<User>, name: Seq<char>) -> Option<User> {
    first_match(users, user_name_pred(name))
}

/// The user row an id denotes, if any.
pub open spec fn find_user_by_id(users: Seq<User>, id: i64) -> Option<User> {
    first_match(users, user_id_pred(id))
}

/// The token row a credential string denotes, if any.
pub open spec fn find_token(tokens: Seq<AuthToken>, token: Seq<char>) -> Option<AuthToken> {
    first_match(tokens, token_pred(token))
}

/// The one-time password row a code denotes, if any.
pub open spec fn find_otp(otps: Seq<OTP>, code: Seq<char>) -> Option<OTP> {
    first_match(otps, otp_code_pred(code))
}

/// All user rows, keyed by id; names are unambiguous as well.
pub struct UserRepository {
    pub users: Vec<User>,
}

impl UserRepository {
    /// Ids and usernames each appear on at most one row.
    pub open spec fn wf(self) -> bool {
        &&& forall|i: int, j: int|
            0 <= i < j < self.users@.len() ==> (#[trigger] self.users@[i]).id != (
            #[trigger] self.users@[j]).id
        &&& forall|i: int, j: int|
            0 <= i < j < self.users@.len() ==> (#[trigger] self.users@[i]).username@ != (
            #[trigger] self.users@[j]).username@
    }
}

/// Auth token and one-time password rows; ids are unambiguous and
/// non-negative within each table.
pub struct CredentialStore {
    pub tokens: Vec<AuthToken>,
    pub otps: Vec<OTP>,
}

impl CredentialStore {
    pub open spec fn wf(self) -> bool {
        &&& forall|i: int, j: int|
            0 <= i < j < self.tokens@.len() ==> (#[trigger] self.tokens@[i]).id != (
            #[trigger] self.tokens@[j]).id
        &&& forall|i: int| 0 <= i < self.tokens@.len() ==> (#[trigger] self.tokens@[i]).id >= 0
        &&& forall|i: int, j: int|
            0 <= i < j < self.otps@.len() ==> (#[trigger] self.otps@[i]).id != (
            #[trigger] self.otps@[j]).id
        &&& forall|i: int| 0 <= i < self.otps@.len() ==> (#[trigger] self.otps@[i]).id >= 0
    }
}

/// Inserts a user row. The caller owns id assignment, so the row's id and
/// name must be fresh, as the unique columns of the backing table demand.
pub fn add_new_user(user: &User, repo: &mut UserRepository)
    requires
        old(repo).wf(),
        find_user_by_id(old(repo).users@, user.id) is None,
        find_user_by_name(old(repo).users@, user.username@) is None,
    ensures
        final(repo).wf(),
        final(repo).users@ == old(repo).users@.push(*user),
{
    proof {
        lemma_first_match_none(repo.users@, user_id_pred(user.id));
        lemma_first_match_none(repo.users@, user_name_pred(user.username@));
    }
    repo.users.push(user.clone());
}

/// Looks a user up by name: the first row carrying it.
pub fn get_user_by_name(user: &String, repo: &UserRepository) -> (r: Option<User>)
    ensures
        r == find_user_by_name(repo.users@, user@),
{
    let n = repo.users.len();
    let mut i: usize = 0;
    proof {
        assert(repo.users@.skip(0) =~= repo.users@);
    }
    while i < n
        invariant
            n == repo.users@.len(),
            i <= n,
            first_match(repo.users@.skip(i as int), user_name_pred(user@)) == find_user_by_name(
                repo.users@,
                user@,
            ),
        decreases n - i,
    {
        if repo.users[i].username.eq(user) {
            proof {
                assert(user_name_pred(user@)(repo.users@[i as int]));
                lemma_first_match_here(repo.users@, user_name_pred(user@), i as int);
            }
            return Some(repo.users[i].clone());
        }
        proof {
            assert(!user_name_pred(user@)(repo.users@[i as int]));
            lemma_first_match_skip(repo.users@, user_name_pred(user@), i as int);
        }
        i = i + 1;
    }
    proof {
        assert(repo.users@.skip(n as int) =~= Seq::<User>::empty());
    }
    None
}

/// Looks a user up by id.
pub fn get_user_by_id(l_id: &i64, repo: &UserRepository) -> (r: Option<User>)
    ensures
        r == find_user_by_id(repo.users@, *l_id),
{
    let n = repo.users.len();
    let mut i: usize = 0;
    proof {
        assert(repo.users@.skip(0) =~= repo.users@);
    }
    while i < n
        invariant
            n == repo.users@.len(),
            i <= n,
            first_match(repo.users@.skip(i as int), user_id_pred(*l_id)) == find_user_by_id(
                repo.users@,
                *l_id,
            ),
        decreases n - i,
    {
        if repo.users[i].id == *l_id {
            proof {
                assert(user_id_pred(*l_id)(repo.users@[i as int]));
                lemma_first_match_here(repo.users@, user_id_pred(*l_id), i as int);
            }
            return Some(repo.users[i].clone());
        }
        proof {
            assert(!user_id_pred(*l_id)(repo.users@[i as int]));
            lemma_first_match_skip(repo.users@, user_id_pred(*l_id), i as int);
        }
        i = i + 1;
    }
    proof {
        assert(repo.users@.skip(n as int) =~= Seq::<User>::empty());
    }
    None
}

/// All rows still pending review, in table order.
pub fn get_found_users(repo: &UserRepository) -> (r: Vec<User>)
    ensures
        r@ == repo.users@.filter(found_pred()),
{
    let n = repo.users.len();
    let mut out: Vec<User> = Vec::new();
    let mut i: usize = 0;
    proof {
        reveal(Seq::filter);
        assert(repo.users@.take(0) =~= Seq::<User>::empty());
    }
    while i < n
        invariant
            n == repo.users@.len(),
            i <= n,
            out@ == repo.users@.take(i as int).filter(found_pred()),
        decreases n - i,
    {
        proof {
            reveal(Seq::filter);
            assert(repo.users@.take(i + 1 as int).drop_last() =~= repo.users@.take(i as int));
            assert(repo.users@.take(i + 1 as int).last() == repo.users@[i as int]);
        }
        if repo.users[i].status == Status::Found {
            out.push(repo.users[i].clone());
        }
        i = i + 1;
    }
    proof {
        assert(repo.users@.take(n as int) =~= repo.users@);
    }
    out
}

/// All user rows, in table order.
pub fn get_users(repo: &UserRepository) -> (r: Vec<User>)
    ensures
        r@ == repo.users@,
{
    let n = repo.users.len();
    let mut out: Vec<User> = Vec::new();
    let mut i: usize = 0;
    while i < n
        invariant
            n == repo.users@.len(),
            i <= n,
            out@ == repo.users@.take(i as int),
        decreases n - i,
    {
        out.push(repo.users[i].clone());
        proof {
            assert(repo.users@.take(i + 1 as int) =~= repo.users@.take(i as int).push(
                repo.users@[i as int],
            ));
        }
        i = i + 1;
    }
    proof {
        assert(repo.users@.take(n as int) =~= repo.users@);
    }
    out
}

/// Deletes the row of a user id, leaving every other row in place.
pub fn delete_user(us: &i64, repo: &mut UserRepository)
    requires
        old(repo).wf(),
    ensures
        final(repo).wf(),
        final(repo).users@ == old(repo).users@.filter(user_keep_pred(*us)),
{
    let n = repo.users.len();
    let mut out: Vec<User> = Vec::new();
    let mut i: usize = 0;
    proof {
        reveal(Seq::filter);
        assert(repo.users@.take(0) =~= Seq::<User>::empty());
    }
    while i < n
        invariant
            n == repo.users@.len(),
            i <= n,
            out@ == repo.users@.take(i as int).filter(user_keep_pred(*us)),
        decreases n - i,
    {
        proof {
            reveal(Seq::filter);
            assert(repo.users@.take(i + 1 as int).drop_last() =~= repo.users@.take(i as int));
            assert(repo.users@.take(i + 1 as int).last() == repo.users@[i as int]);
        }
        if repo.users[i].id != *us {
            out.push(repo.users[i].clone());
        }
        i = i + 1;
    }
    proof {
        assert(repo.users@.take(n as int) =~= repo.users@);
        lemma_filter_distinct_by_key(repo.users@, user_keep_pred(*us), |u: User| u.id);
        assert forall|a: int, b: int|
            0 <= a < b < repo.users@.filter(user_keep_pred(*us)).len() implies (
        #[trigger] repo.users@.filter(user_keep_pred(*us))[a]).username@ != (
        #[trigger] repo.users@.filter(user_keep_pred(*us))[b]).username@ by {
            let f = repo.users@.filter(user_keep_pred(*us));
            lemma_filter_elem(repo.users@, user_keep_pred(*us), a);
            lemma_filter_elem(repo.users@, user_keep_pred(*us), b);
            let ka = choose|k: int| 0 <= k < repo.users@.len() && repo.users@[k] == f[a];
            let kb = choose|k: int| 0 <= k < repo.users@.len() && repo.users@[k] == f[b];
            assert(repo.users@[ka] == f[a]);
            assert(repo.users@[kb] == f[b]);
            assert(f[a].id != f[b].id);
        }
    }
    repo.users = out;
}

/// The fields an update writes back from an edited user value; identity,
/// name and creation time never change.
pub open spec fn merge_user_update(row: User, edit: User) -> User {
    User {
        password: edit.password,
        status: edit.status,
        status_changed: edit.status_changed,
        reviewer: edit.reviewer,
        properties: edit.properties,
        discoverer: edit.discoverer,
        ..row
    }
}

/// Writes an edited user's mutable columns back onto the row with its id.
pub fn update_user(user: &User, repo: &mut UserRepository)
    requires
        old(repo).wf(),
    ensures
        final(repo).wf(),
        final(repo).users@.len() == old(repo).users@.len(),
        forall|i: int|
            0 <= i < old(repo).users@.len() ==> #[trigger] final(repo).users@[i] == (
            if old(repo).users@[i].id == user.id {
                merge_user_update(old(repo).users@[i], *user)
            } else {
                old(repo).users@[i]
            }),
{
    let n = repo.users.len();
    let mut i: usize = 0;
    while i < n
        invariant
            n == repo.users@.len(),
            i <= n,
            repo == old(repo),
            repo.wf(),
            forall|k: int| 0 <= k < i ==> (#[trigger] repo.users@[k]).id != user.id,
        decreases n - i,
    {
        if repo.users[i].id == user.id {
            let merged = User {
                id: repo.users[i].id,
                discord_id: repo.users[i].discord_id,
                username: repo.users[i].username.clone(),
                password: user.password.clone(),
                permissions: repo.users[i].permissions,
                status: user.status,
                status_changed: user.status_changed,
                discoverer: user.discoverer.clone(),
                reviewer: user.reviewer.clone(),
                properties: user.properties.clone(),
                created: repo.users[i].created,
            };
            proof {
                assert forall|k: int|
                    0 <= k < old(repo).users@.len() && k != i implies (
                #[trigger] old(repo).users@[k]).id != old(repo).users@[i as int].id by {
                    if k < i {
                        assert(old(repo).users@[k].id != old(repo).users@[i as int].id);
                    }
                }
            }
            repo.users[i] = merged;
            return ;
        }
        i = i + 1;
    }
}

/// Overwrites only the profile properties of a user id.
pub fn update_properties(user: &i64, props: UserProperties, repo: &mut UserRepository)
    requires
        old(repo).wf(),
    ensures
        final(repo).wf(),
        final(repo).users@.len() == old(repo).users@.len(),
        forall|i: int|
            0 <= i < old(repo).users@.len() ==> #[trigger] final(repo).users@[i] == (
            if old(repo).users@[i].id == *user {
                User { properties: props, ..old(repo).users@[i] }
            } else {
                old(repo).users@[i]
            }),
{
    let n = repo.users.len();
    let mut i: usize = 0;
    while i < n
        invariant
            n == repo.users@.len(),
            i <= n,
            repo == old(repo),
            repo.wf(),
            forall|k: int| 0 <= k < i ==> (#[trigger] repo.users@[k]).id != *user,
        decreases n - i,
    {
        if repo.users[i].id == *user {
            let merged = User {
                id: repo.users[i].id,
                discord_id: repo.users[i].discord_id,
                username: repo.users[i].username.clone(),
                password: repo.users[i].password.clone(),
                permissions: repo.users[i].permissions,
                status: repo.users[i].status,
                status_changed: repo.users[i].status_changed,
                discoverer: repo.users[i].discoverer.clone(),
                reviewer: repo.users[i].reviewer.clone(),
                properties: props,
                created: repo.users[i].created,
            };
            proof {
                assert forall|k: int|
                    0 <= k < old(repo).users@.len() && k != i implies (
                #[trigger] old(repo).users@[k]).id != old(repo).users@[i as int].id by {
                    if k < i {
                        assert(old(repo).users@[k].id != old(repo).users@[i as int].id);
                    }
                }
            }
            repo.users[i] = merged;
            return ;
        }
        i = i + 1;
    }
}

/// Overwrites only the password hash of a user id.
pub fn update_password(user: &i64, pass: String, repo: &mut UserRepository)
    requires
        old(repo).wf(),
    ensures
        final(repo).wf(),
        final(repo).users@.len() == old(repo).users@.len(),
        forall|i: int|
            0 <= i < old(repo).users@.len() ==> #[trigger] final(repo).users@[i] == (
            if old(repo).users@[i].id == *user {
                User { password: pass, ..old(repo).users@[i] }
            } else {
                old(repo).users@[i]
            }),
{
    let n = repo.users.len();
    let mut i: usize = 0;
    while i < n
        invariant
            n == repo.users@.len(),
            i <= n,
            repo == old(repo),
            repo.wf(),
            forall|k: int| 0 <= k < i ==> (#[trigger] repo.users@[k]).id != *user,
        decreases n - i,
    {
        if repo.users[i].id == *user {
            let merged = User {
                id: repo.users[i].id,
                discord_id: repo.users[i].discord_id,
                username: repo.users[i].username.clone(),
                password: pass,
                permissions: repo.users[i].permissions,
                status: repo.users[i].status,
                status_changed: repo.users[i].status_changed,
                discoverer: repo.users[i].discoverer.clone(),
                reviewer: repo.users[i].reviewer.clone(),
                properties: repo.users[i].properties.clone(),
                created: repo.users[i].created,
            };
            proof {
                assert forall|k: int|
                    0 <= k < old(repo).users@.len() && k != i implies (
                #[trigger] old(repo).users@[k]).id != old(repo).users@[i as int].id by {
                    if k < i {
                        assert(old(repo).users@[k].id != old(repo).users@[i as int].id);
                    }
                }
            }
            repo.users[i] = merged;
            return ;
        }
        i = i + 1;
    }
}

/// Records a review outcome on the target row: the new status, who
/// decided it, and when.
pub fn update_status(
    user: &i64,
    status: Status,
    reviewer: &String,
    time: i64,
    repo: &mut UserRepository,
)
    requires
        old(repo).wf(),
    ensures
        final(repo).wf(),
        final(repo).users@.len() == old(repo).users@.len(),
        forall|i: int|
            0 <= i < old(repo).users@.len() ==> #[trigger] final(repo).users@[i] == (
            if old(repo).users@[i].id == *user {
                User {
                    status,
                    reviewer: *reviewer,
                    status_changed: time,
                    ..old(repo).users@[i]
                }
            } else {
                old(repo).users@[i]
            }),
{
    let n = repo.users.len();
    let mut i: usize = 0;
    while i < n
        invariant
            n == repo.users@.len(),
            i <= n,
            repo == old(repo),
            repo.wf(),
            forall|k: int| 0 <= k < i ==> (#[trigger] repo.users@[k]).id != *user,
        decreases n - i,
    {
        if repo.users[i].id == *user {
            let merged = User {
                id: repo.users[i].id,
                discord_id: repo.users[i].discord_id,
                username: repo.users[i].username.clone(),
                password: repo.users[i].password.clone(),
                permissions: repo.users[i].permissions,
                status,
                status_changed: time,
                discoverer: repo.users[i].discoverer.clone(),
                reviewer: reviewer.clone(),
                properties: repo.users[i].properties.clone(),
                created: repo.users[i].created,
            };
            proof {
                assert forall|k: int|
                    0 <= k < old(repo).users@.len() && k != i implies (
                #[trigger] old(repo).users@[k]).id != old(repo).users@[i as int].id by {
                    if k < i {
                        assert(old(repo).users@[k].id != old(repo).users@[i as int].id);
                    }
                }
            }
            repo.users[i] = merged;
            return ;
        }
        i = i + 1;
    }
}

/// The user a credential string authenticates: the token row's owner, if
/// both exist.
pub open spec fn find_user_from_token(
    tokens: Seq<AuthToken>,
    users: Seq<User>,
    token: Seq<char>,
) -> Option<User> {
    match find_token(tokens, token) {
        None => None,
        Some(t) => find_user_by_id(users, t.user),
    }
}

/// Resolves a presented credential string to its user.
pub fn get_user_from_auth_token(
    token: &String,
    store: &CredentialStore,
    repo: &UserRepository,
) -> (r: Option<User>)
    ensures
        r == find_user_from_token(store.tokens@, repo.users@, token@),
{
    let found = get_auth_token(token, store);
    match found {
        None => None,
        Some(t) => get_user_by_id(&t.user, repo),
    }
}

/// Looks an auth token row up by its credential string.
pub fn get_auth_token(a_token: &String, store: &CredentialStore) -> (r: Option<AuthToken>)
    ensures
        r == find_token(store.tokens@, a_token@),
{
    let n = store.tokens.len();
    let mut i: usize = 0;
    proof {
        assert(store.tokens@.skip(0) =~= store.tokens@);
    }
    while i < n
        invariant
            n == store.tokens@.len(),
            i <= n,
            first_match(store.tokens@.skip(i as int), token_pred(a_token@)) == find_token(
                store.tokens@,
                a_token@,
            ),
        decreases n - i,
    {
        if store.tokens[i].token.eq(a_token) {
            proof {
                assert(token_pred(a_token@)(store.tokens@[i as int]));
                lemma_first_match_here(store.tokens@, token_pred(a_token@), i as int);
            }
            return Some(store.tokens[i].clone());
        }
        proof {
            assert(!token_pred(a_token@)(store.tokens@[i as int]));
            lemma_first_match_skip(store.tokens@, token_pred(a_token@), i as int);
        }
        i = i + 1;
    }
    proof {
        assert(store.tokens@.skip(n as int) =~= Seq::<AuthToken>::empty());
    }
    None
}

/// Inserts an auth token row; the caller must bring a fresh, non-negative
/// id.
pub fn add_new_auth_token(t: &AuthToken, store: &mut CredentialStore)
    requires
        old(store).wf(),
        t.id >= 0,
        forall|i: int| 0 <= i < old(store).tokens@.len() ==> (#[trigger] old(store).tokens@[i]).id
            != t.id,
    ensures
        final(store).wf(),
        final(store).tokens@ == old(store).tokens@.push(*t),
        final(store).otps@ == old(store).otps@,
{
    store.tokens.push(t.clone());
}

/// Looks a one-time password row up by its code.
pub fn get_opt(value: &String, store: &CredentialStore) -> (r: Option<OTP>)
    ensures
        r == find_otp(store.otps@, value@),
{
    let n = store.otps.len();
    let mut i: usize = 0;
    proof {
        assert(store.otps@.skip(0) =~= store.otps@);
    }
    while i < n
        invariant
            n == store.otps@.len(),
            i <= n,
            first_match(store.otps@.skip(i as int), otp_code_pred(value@)) == find_otp(
                store.otps@,
                value@,
            ),
        decreases n - i,
    {
        if store.otps[i].password.eq(value) {
            proof {
                assert(otp_code_pred(value@)(store.otps@[i as int]));
                lemma_first_match_here(store.otps@, otp_code_pred(value@), i as int);
            }
            return Some(store.otps[i].clone());
        }
        proof {
            assert(!otp_code_pred(value@)(store.otps@[i as int]));
            lemma_first_match_skip(store.otps@, otp_code_pred(value@), i as int);
        }
        i = i + 1;
    }
    proof {
        assert(store.otps@.skip(n as int) =~= Seq::<OTP>::empty());
    }
    None
}

/// Deletes the row of a one-time password id; every other row, in
/// particular any other code, stays.
pub fn delete_otp(otp_id: i64, store: &mut CredentialStore)
    requires
        old(store).wf(),
    ensures
        final(store).wf(),
        final(store).otps@ == old(store).otps@.filter(otp_keep_pred(otp_id)),
        final(store).tokens@ == old(store).tokens@,
{
    let n = store.otps.len();
    let mut out: Vec<OTP> = Vec::new();
    let mut i: usize = 0;
    proof {
        reveal(Seq::filter);
        assert(store.otps@.take(0) =~= Seq::<OTP>::empty());
    }
    while i < n
        invariant
            n == store.otps@.len(),
            i <= n,
            store == old(store),
            out@ == store.otps@.take(i as int).filter(otp_keep_pred(otp_id)),
        decreases n - i,
    {
        proof {
            reveal(Seq::filter);
            assert(store.otps@.take(i + 1 as int).drop_last() =~= store.otps@.take(i as int));
            assert(store.otps@.take(i + 1 as int).last() == store.otps@[i as int]);
        }
        if store.otps[i].id != otp_id {
            out.push(store.otps[i].clone());
        }
        i = i + 1;
    }
    proof {
        assert(store.otps@.take(n as int) =~= store.otps@);
        lemma_filter_distinct_by_key(store.otps@, otp_keep_pred(otp_id), |o: OTP| o.id);
        let f = store.otps@.filter(otp_keep_pred(otp_id));
        assert forall|a: int| 0 <= a < f.len() implies (#[trigger] f[a]).id >= 0 by {
            lemma_filter_elem(store.otps@, otp_keep_pred(otp_id), a);
            let k = choose|k: int| 0 <= k < store.otps@.len() && store.otps@[k] == f[a];
            assert(store.otps@[k] == f[a]);
        }
    }
    store.otps = out;
}

/// Whether any one-time password row carries a code.
pub fn opt_exist(value: &String, store: &CredentialStore) -> (r: bool)
    ensures
        r == (find_otp(store.otps@, value@) is Some),
{
    get_opt(value, store).is_some()
}

/// Inserts a one-time password row; the caller must bring a fresh,
/// non-negative id.
pub fn add_opt(value: &OTP, store: &mut CredentialStore)
    requires
        old(store).wf(),
        value.id >= 0,
        forall|i: int| 0 <= i < old(store).otps@.len() ==> (#[trigger] old(store).otps@[i]).id
            != value.id,
    ensures
        final(store).wf(),
        final(store).otps@ == old(store).otps@.push(*value),
        final(store).tokens@ == old(store).tokens@,
{
    store.otps.push(value.clone());
}

/// The team-listing slice of a user id's row.
pub fn get_team_user(user: &i64, repo: &UserRepository) -> (r: Option<TeamUser>)
    ensures
        match find_user_by_id(repo.users@, *user) {
            None => r is None,
            Some(u) => r == Some(
                TeamUser { username: u.username, properties: u.properties },
            ),
        },
{
    match get_user_by_id(user, repo) {
        None => None,
        Some(u) => Some(TeamUser { username: u.username, properties: u.properties }),
    }
}

} // verus!
