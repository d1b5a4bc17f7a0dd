//! Client-side logic for a file-hosting / URL-shortening service: input
//! classification, multipart form construction, and response rendering.

use vstd::prelude::*;

pub mod decimal;
pub mod expiry;
pub mod form;
pub mod response;
pub mod target;

verus! {

/// The fixed root URL of the service, where creation requests are sent.
pub const ENVS: &'static str = "https://envs.sh";

} // verus!
