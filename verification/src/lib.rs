//! Client-side core of a remote account-security service's web API:
//! the login/credential-transfer protocol, the secret session material it
//! produces, and the cookie state that authenticates every later request.
//!
//! Network transport is deliberately outside this crate: callers perform the
//! HTTP exchanges and feed the response pieces (bodies, `Set-Cookie` header
//! values) back into these types.

use vstd::prelude::*;

pub mod ajax;
pub mod client;
pub mod cookies;
pub mod endpoints;
pub mod error;
pub mod numeric;
pub mod protocol;
pub mod raw;
pub mod responses;
pub mod session;

verus! {

} // verus!
