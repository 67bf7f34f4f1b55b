//! Client-side core for an end-to-end encrypting message gateway:
//! binary blob identifiers with a canonical hex text form, recipient
//! addressing, box encryption of message payloads, blob upload framing,
//! and classification of transport status codes into domain errors.

use vstd::prelude::*;

pub mod connection;
pub mod crypto;
pub mod errors;
pub mod hex;

verus! {

/// Base URL of the remote gateway service.
pub const MSGAPI_URL: &'static str = "https://msgapi.threema.ch";

} // verus!
