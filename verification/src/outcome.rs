//! The result shape a process unit returns: the same structure stands for the
//! success branch and for the failure branch of its result.

use vstd::prelude::*;
use crate::json::JsonValue;

verus! {

/// The outcome of one invocation of a process unit: a status code, a short
/// message, arbitrary structured data, and a list of error strings (empty by
/// convention on success; not enforced).
pub struct ProcessResponse {
    pub code: u16,
    pub message: String,
    pub data: JsonValue,
    pub errors: Vec<String>,
}

impl ProcessResponse {
    /// A new outcome holding exactly the given fields.
    pub fn new(code: u16, message: String, data: JsonValue, errors: Vec<String>) -> (r: Self)
        ensures
            r.code == code,
            r.message == message,
            r.data == data,
            r.errors == errors,
    {
        ProcessResponse { code, message, data, errors }
    }
}

} // verus!
