//! The rows that the service works on: users with their capability flags and
//! review status, auth tokens, and one-time passwords.

use vstd::prelude::*;

verus! {

/// Review status of a user. `Found` is the initial state; `Approved` and
/// `Denied` are terminal for a review cycle.
#[derive(Clone, Copy, Debug, PartialEq, Eq, Structural)]
pub enum Status {
    Found,
    Approved,
    Denied,
}

/// What a requested status string means; anything but the three known words
/// is unknown.
pub open spec fn spec_status_from_str(s: Seq<char>) -> Option<Status> {
    if s == "Found"@ {
        Some(Status::Found)
    } else if s == "Approved"@ {
        Some(Status::Approved)
    } else if s == "Denied"@ {
        Some(Status::Denied)
    } else {
        None
    }
}

/// Parses a status name, accepting exactly the three variant names.
pub fn status_from_str(s: &String) -> (r: Option<Status>)
    ensures
        r == spec_status_from_str(s@),
{
    if string_eq_literal(s, "Found") {
        Some(Status::Found)
    } else if string_eq_literal(s, "Approved") {
        Some(Status::Approved)
    } else if string_eq_literal(s, "Denied") {
        Some(Status::Denied)
    } else {
        None
    }
}

/// The wire name of a status value.
pub fn status_as_str(status: &Status) -> (r: String)
    ensures
        match status {
            Status::Found => r@ == "Found"@,
            Status::Approved => r@ == "Approved"@,
            Status::Denied => r@ == "Denied"@,
        },
{
    match status {
        Status::Found => "Found".to_owned(),
        Status::Approved => "Approved".to_owned(),
        Status::Denied => "Denied".to_owned(),
    }
}

/// Compares a string against a literal.
pub fn string_eq_literal(a: &String, b: &str) -> (r: bool)
    ensures
        r == (a@ == b@),
{
    let owned: String = b.to_owned();
    a.eq(&owned)
}

/// Named capability flags of a user; checked independently, not a role
/// hierarchy.
#[derive(Clone, Copy, Debug, PartialEq, Eq, Structural)]
pub struct Permissions {
    pub moderator: bool,
    pub approve_user: bool,
    pub login: bool,
}

/// Free-form profile fields a moderator may edit.
#[derive(Debug, PartialEq)]
pub struct UserProperties {
    pub avatar: String,
    pub description: String,
}

impl UserProperties {
    pub fn set_avatar(&mut self, value: String)
        ensures
            final(self).avatar == value,
            final(self).description == old(self).description,
    {
        self.avatar = value;
    }

    pub fn set_description(&mut self, value: String)
        ensures
            final(self).description == value,
            final(self).avatar == old(self).avatar,
    {
        self.description = value;
    }
}

impl Clone for UserProperties {
    fn clone(&self) -> (r: Self)
        ensures
            r == *self,
    {
        UserProperties { avatar: self.avatar.clone(), description: self.description.clone() }
    }
}

/// A user row: identity, credential hash, capabilities, review status with
/// its metadata, profile properties and creation time.
#[derive(Debug, PartialEq)]
pub struct User {
    pub id: i64,
    pub discord_id: i64,
    pub username: String,
    /// Password hash as produced by the hashing primitive; never a plain
    /// password.
    pub password: String,
    pub permissions: Permissions,
    pub status: Status,
    /// When the status last changed.
    pub status_changed: i64,
    /// Who discovered the user.
    pub discoverer: String,
    /// Who reviewed the user (set when the status changes).
    pub reviewer: String,
    pub properties: UserProperties,
    pub created: i64,
}

impl Clone for User {
    fn clone(&self) -> (r: Self)
        ensures
            r == *self,
    {
        User {
            id: self.id,
            discord_id: self.discord_id,
            username: self.username.clone(),
            password: self.password.clone(),
            permissions: self.permissions,
            status: self.status,
            status_changed: self.status_changed,
            discoverer: self.discoverer.clone(),
            reviewer: self.reviewer.clone(),
            properties: self.properties.clone(),
            created: self.created,
        }
    }
}

/// An opaque credential issued on successful authentication; valid until
/// deleted.
#[derive(Debug, PartialEq)]
pub struct AuthToken {
    pub id: i64,
    /// Owning user id.
    pub user: i64,
    /// The opaque random credential string.
    pub token: String,
    pub created: i64,
}

impl Clone for AuthToken {
    fn clone(&self) -> (r: Self)
        ensures
            r == *self,
    {
        AuthToken {
            id: self.id,
            user: self.user,
            token: self.token.clone(),
            created: self.created,
        }
    }
}

/// A one-time password: a short-lived code redeemable once for an auth token.
#[derive(Debug, PartialEq)]
pub struct OTP {
    pub id: i64,
    /// Owning user id.
    pub user: i64,
    /// The code itself.
    pub password: String,
    /// Last moment at which the code may still be redeemed.
    pub expiration: i64,
    pub created: i64,
}

impl Clone for OTP {
    fn clone(&self) -> (r: Self)
        ensures
            r == *self,
    {
        OTP {
            id: self.id,
            user: self.user,
            password: self.password.clone(),
            expiration: self.expiration,
            created: self.created,
        }
    }
}

/// The slice of a user row that team listings expose.
#[derive(Debug, PartialEq)]
pub struct TeamUser {
    pub username: String,
    pub properties: UserProperties,
}

impl Clone for TeamUser {
    fn clone(&self) -> (r: Self)
        ensures
            r == *self,
    {
        TeamUser { username: self.username.clone(), properties: self.properties.clone() }
    }
}

} // verus!
