//! A JSON-RPC gateway for the `zks` namespace: a fixed table of methods, the
//! check of each request against it, the upstream call it becomes, and the
//! single error shape that every failure is reported in.
use vstd::prelude::*;

pub mod decode;
pub mod error;
pub mod gateway;
pub mod json;
pub mod schema;

verus! {

} // verus!
