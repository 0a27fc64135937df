//! Identifiers of windows and input devices.

use vstd::prelude::*;

verus! {

/// Identifies a window for as long as the window is open.
pub type WindowId = u64;

/// Identifies a mouse for as long as it is attached.
pub type MouseId = u64;

/// Identifies a keyboard for as long as it is attached.
pub type KeyboardId = u64;

/// Something that has an identifier.
pub trait HasId {
    type Id;

    /// The identifier of this object.
    fn id(&self) -> Self::Id;
}

} // verus!
