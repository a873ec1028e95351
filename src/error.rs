use vstd::prelude::*;

verus! {

/// The ways in which opening a segment can fail.
#[derive(Debug, Clone, Copy, PartialEq, Eq, Structural)]
pub enum ShmemError {
    /// The segment neither existed nor could be created.
    CreateFailedErr,
    /// A freshly created segment could not be resized to the requested size.
    AllocationFailedErr,
    /// Mapping the segment into the address space gave no usable address.
    NullPointerErr,
}

impl ShmemError {
    /// The name of the error kind, as it is printed.
    pub fn as_str(&self) -> (r: &'static str)
        ensures
            r@ == match *self {
                ShmemError::CreateFailedErr => "CreateFailedErr"@,
                ShmemError::AllocationFailedErr => "AllocationFailedErr"@,
                ShmemError::NullPointerErr => "NullPointerErr"@,
            },
    {
        match self {
            ShmemError::CreateFailedErr => "CreateFailedErr",
            ShmemError::AllocationFailedErr => "AllocationFailedErr",
            ShmemError::NullPointerErr => "NullPointerErr",
        }
    }
}

} // verus!
