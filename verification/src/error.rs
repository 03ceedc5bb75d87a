//! Failures that the material pipeline reports.

use vstd::prelude::*;

verus! {

/// Why an operation on a material did not go through.
#[derive(Clone, Copy, Debug, PartialEq, Eq, Structural)]
pub enum MaterialError {
    /// The handle names no live record of the store.
    NotFound,
    /// A byte block does not have the size that the material's layout declares, or the
    /// backend refused the layout of a binding.
    InvalidLayout,
    /// The backend could not allocate a buffer or a binding set.
    DeviceOutOfMemory,
    /// A colour component is an infinity or not a number.
    NonFiniteColor,
}

} // verus!
