//! Top-level error types

use vstd::prelude::*;

verus! {

/// The program as a whole failed.
#[derive(Debug, Clone, Copy, PartialEq, Eq, Structural)]
pub struct AppError;

impl AppError {
    pub fn message(&self) -> &'static str {
        "an application error occurred"
    }
}

/// A suggestion displayed to the user
#[derive(Debug, Clone, Copy)]
pub struct Suggestion(pub &'static str);

} // verus!
