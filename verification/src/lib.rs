//! Verified core of a Petstore-style resource API server.
//!
//! The crate models the request-processing pipeline of the service: the
//! per-operation outcome enumerations with their fixed status codes, the
//! wire codec (structured documents, flattened key/value forms, and an
//! alternate tree-markup form), and the layered middleware chain
//! (context propagation, identity, cross-origin headers).

pub mod datetime;
pub mod dispatch;
pub mod document;
pub mod error;
pub mod flat;
pub mod http;
pub mod laws_flat;
pub mod models;
pub mod nums;
pub mod outcome;
pub mod structured;
pub mod strutil;
pub mod xml;

use vstd::prelude::*;

verus! {

/// Base path prefix under which every operation is routed.
pub fn base_path() -> (r: &'static str)
    ensures
        r@ == "/api/v3"@,
{
    "/api/v3"
}

/// Version string of the interface description this server implements.
pub fn api_version() -> (r: &'static str)
    ensures
        r@ == "1.0.11"@,
{
    "1.0.11"
}

} // verus!
