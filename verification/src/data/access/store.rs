//! What the document store answers to a write.
use vstd::prelude::*;

verus! {

/// What the store answered to a write of one document.
#[derive(Clone, Copy, Debug, PartialEq, Eq, Structural)]
pub enum WriteReport {
    /// The write went through and reached this many stored documents.
    Reached(u64),
    /// The write failed.
    Failed,
}

} // verus!
