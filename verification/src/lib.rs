//! Verified core of a YouTube Data API client: channel resolution,
//! response decoding, numeric-string coercion and normalization.
//!
//! The HTTP transport and environment handling live outside this crate;
//! the library plans each request, interprets each response, and carries
//! the state of a lookup between requests.

pub mod decode;
pub mod flow;
pub mod ident;
pub mod jsonval;
pub mod laws;
pub mod normalize;
pub mod numbers;
pub mod records;
pub mod urls;

use vstd::prelude::*;

verus! {

} // verus!
