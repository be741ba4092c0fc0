//! A moderation and login service for pending user registrations.
//!
//! Moderators review users that were discovered in the `Found` status, claim
//! one at a time through the [`coordinator::ReviewCoordinator`] so that two
//! moderators never work on the same user, and approve or deny them through
//! the status workflow in [`controllers`]. Approved users authenticate with a
//! password or with a single-use one-time code, both of which yield an opaque
//! auth token (see [`login`]).
//!
//! User, token and one-time-password rows live in the in-memory stores of
//! [`action`]; a host program is expected to keep them in sync with whatever
//! durable storage it uses and to perform the network calls (profile fetch,
//! approval side effect, code delivery) that the contracts here only decide
//! about.

pub mod action;
pub mod apiresponse;
pub mod controllers;
pub mod coordinator;
pub mod login;
pub mod lookup;
pub mod models;
