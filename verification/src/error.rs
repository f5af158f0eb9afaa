//! Failures that the library reports.

use vstd::prelude::*;

verus! {

/// Why an operation on parameters was refused.
#[derive(Clone, Copy, PartialEq, Eq, Debug)]
pub enum SrsError {
    /// The requested size exceeds what the universal parameters support.
    DegreeTooLarge { supported_size: usize, max_degree: usize },
    /// The bytes are not the canonical form of any parameters.
    Decode,
}

} // verus!
