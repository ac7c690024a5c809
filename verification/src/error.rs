//! The failures this library surfaces to its caller.

use vstd::prelude::*;
use crate::json::Json;

verus! {

/// Everything that can go wrong between an image and a decoded annotation.
///
/// All three variants are returned as values, never logged or swallowed, and
/// no partial result is synthesized alongside one.
#[derive(Debug, PartialEq, Eq)]
pub enum VisionError {
    /// The image could not be serialized to the transport byte format.
    Encode,
    /// The service answered with a structured error object; the object is
    /// carried verbatim.
    Service(Json),
    /// A navigated payload path is missing or has an unexpected shape. The
    /// message names the path or schema that failed.
    Schema(String),
}

} // verus!
