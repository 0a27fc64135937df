//! Things that fail with one error type.

use vstd::prelude::*;

verus! {

/// Something whose operations fail with one error type.
pub trait Fallible {
    type Error;
}

} // verus!
