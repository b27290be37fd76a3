//! The error type of lowering.
use vstd::prelude::*;

use crate::text::concat;

verus! {

/// An error of lowering.
#[derive(Debug)]
pub enum LowerError {
    UnexpectedNode { kind: String, expected: String },
}

impl LowerError {
    /// The message of the error: `unexpected node '<kind>', expected <expected>`.
    pub fn message(&self) -> (r: String)
        ensures
            match self {
                LowerError::UnexpectedNode { kind, expected } => r@ == "unexpected node '"@ + kind@
                    + "', expected "@ + expected@,
            },
    {
        match self {
            LowerError::UnexpectedNode { kind, expected } => {
                let a = concat("unexpected node '", kind.as_str());
                let b = concat(a.as_str(), "', expected ");
                concat(b.as_str(), expected.as_str())
            },
        }
    }
}

} // verus!
