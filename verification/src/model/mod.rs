//! Typed request, response and event shapes for the Greengrass IPC operations.
//!
//! Field names match the AWS model (see the Python SDK `greengrasscoreipc/model.py`); the JSON
//! field names (camelCase) are given on each field. Blobs travel as base64-encoded strings.

pub mod config;
pub mod iotcore;
pub mod lifecycle;
pub mod pubsub;

use vstd::prelude::*;

verus! {

/// A JSON value (`serde_json::Value`), carried through unchanged.
#[verifier::external_type_specification]
#[verifier::external_body]
pub struct ExJsonValue(serde_json::Value);

/// Cloning a JSON value (`<serde_json::Value as Clone>::clone`) gives an equal value.
pub assume_specification[ <serde_json::Value as Clone>::clone ](v: &serde_json::Value) -> (r:
    serde_json::Value)
    ensures
        r == *v,
;

} // verus!
