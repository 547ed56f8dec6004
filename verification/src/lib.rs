//! Core of a planet-catalogue service: the cache-aside read path, write
//! invalidation, creation notification, per-client rate limiting and the
//! credential gate that guards mutations.
//!
//! The durable document store and the shared cache are collaborators reached
//! over the network; this crate holds every decision the service makes between
//! them, verified. The caller (the unverified binary around the library)
//! performs the store and cache calls and feeds each outcome back into the
//! step functions defined here.

use vstd::prelude::*;

pub mod assets;
pub mod auth;
pub mod backend;
pub mod cache;
pub mod consistency;
pub mod dto;
pub mod error;
pub mod keys;
pub mod model;
pub mod rate_limit;
pub mod text;

verus! {

} // verus!
