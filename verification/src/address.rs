//! Addresses in the foreign process.

use vstd::prelude::*;

verus! {

/// An offset into the address space of the foreign process.
///
/// It is never a pointer of the reading process: the only thing to do with it
/// is to hand it back to the reader. Zero stands for "absent".
#[derive(Clone, Copy, Debug, PartialEq, Eq, Structural)]
pub struct ForeignAddress(pub u64);

impl ForeignAddress {
    /// Whether this is the address that stands for "absent".
    pub open spec fn spec_is_null(&self) -> bool {
        self.0 == 0
    }

    /// The address `index` records of `stride` bytes further on, where the
    /// address space still holds it.
    pub open spec fn spec_element(&self, index: u64, stride: u64) -> Option<ForeignAddress> {
        if self.0 + index * stride <= u64::MAX {
            Some(ForeignAddress((self.0 + index * stride) as u64))
        } else {
            None
        }
    }

    /// The address that stands for "absent".
    pub fn null() -> (r: ForeignAddress)
        ensures
            r.0 == 0,
    {
        ForeignAddress(0)
    }

    /// Whether this is the address that stands for "absent".
    #[verifier::when_used_as_spec(spec_is_null)]
    pub fn is_null(&self) -> (r: bool)
        ensures
            r == self.spec_is_null(),
    {
        self.0 == 0
    }

    /// Address of element `index` of an array of `stride`-byte records that
    /// starts here; `None` where it would lie past the end of the address
    /// space.
    #[verifier::when_used_as_spec(spec_element)]
    pub fn element(&self, index: u64, stride: u64) -> (r: Option<ForeignAddress>)
        ensures
            r == self.spec_element(index, stride),
    {
        match index.checked_mul(stride) {
            None => {
                assert(self.0 + index * stride > u64::MAX);
                None
            },
            Some(distance) => match self.0.checked_add(distance) {
                None => None,
                Some(value) => Some(ForeignAddress(value)),
            },
        }
    }
}

} // verus!
