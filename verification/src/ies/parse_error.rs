//! Why an information element could not be parsed.
use vstd::prelude::*;

verus! {

/// Why an information element body could not be parsed.
#[derive(Debug, Clone, Copy, PartialEq, Eq, Structural, Hash)]
pub enum ParseError {
    /// The body ends before the parts it announces.
    TooShort,
    /// A field holds a code the standard does not define.
    InvalidCode,
}

} // verus!
