//! Things that have a size.

use vstd::prelude::*;

verus! {

/// Something that has a size.
pub trait HasSize {
    type SizeType;

    /// The size.
    fn try_get_size(&mut self) -> Self::SizeType;
}

/// Something whose size can be asked to change.
pub trait Resizable: HasSize {
    type Error;

    /// Asks for the size `size`.
    fn try_set_size(&mut self, size: Self::SizeType) -> Result<(), Self::Error>;
}

} // verus!
