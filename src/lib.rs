//! Bearer-token authentication for a notes service: issuing signed tokens,
//! verifying them, and gating protected handlers behind that verification.
use vstd::prelude::*;

pub mod auth;
pub mod claims;
pub mod clock;
pub mod config;
pub mod credentials;
pub mod error;
pub mod jwt;
pub mod register;
pub mod token;

verus! {

} // verus!
