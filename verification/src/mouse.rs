//! Mouse buttons and wheel directions.

use vstd::prelude::*;

verus! {

/// One mouse button, by its position on the device.
#[derive(Debug, Clone, Copy, PartialEq, Eq, Hash, Structural)]
pub enum UnmarkedButton {
    Left,
    Middle,
    Right,
    Side1,
    Side2,
}

impl UnmarkedButton {
    /// The index of this button: 1 for the left button up to 5 for the
    /// second side button.
    pub open spec fn index_spec(self) -> u32 {
        match self {
            UnmarkedButton::Left => 1,
            UnmarkedButton::Middle => 2,
            UnmarkedButton::Right => 3,
            UnmarkedButton::Side1 => 4,
            UnmarkedButton::Side2 => 5,
        }
    }

    /// The index of this button.
    #[verifier::when_used_as_spec(index_spec)]
    pub fn index(self) -> (index: u32)
        ensures
            index == self.index_spec(),
            1 <= index <= 5,
    {
        match self {
            UnmarkedButton::Left => 1,
            UnmarkedButton::Middle => 2,
            UnmarkedButton::Right => 3,
            UnmarkedButton::Side1 => 4,
            UnmarkedButton::Side2 => 5,
        }
    }

    /// The button with the given index, if there is one.
    pub fn from_u32(index: u32) -> (button: Option<UnmarkedButton>)
        ensures
            match button {
                Some(b) => b.index_spec() == index,
                None => !(1 <= index <= 5),
            },
    {
        match index {
            1 => Some(UnmarkedButton::Left),
            2 => Some(UnmarkedButton::Middle),
            3 => Some(UnmarkedButton::Right),
            4 => Some(UnmarkedButton::Side1),
            5 => Some(UnmarkedButton::Side2),
            _ => None,
        }
    }

    /// The flag that stands for this button in a [`Button`] set: bit
    /// `index - 1`.
    pub open spec fn mask_spec(self) -> u32 {
        match self {
            UnmarkedButton::Left => Button::LEFT,
            UnmarkedButton::Middle => Button::MIDDLE,
            UnmarkedButton::Right => Button::RIGHT,
            UnmarkedButton::Side1 => Button::SIDE1,
            UnmarkedButton::Side2 => Button::SIDE2,
        }
    }
}

/// A set of mouse buttons, as flags.
///
/// Only the bits of [`Button::ALL`] can be set.
#[derive(Debug, Clone, Copy, PartialEq, Eq, Hash, Structural)]
pub struct Button {
    bits: u32,
}

impl Button {
    /// The left button.
    pub const LEFT: u32 = 0x01;

    /// The middle button.
    pub const MIDDLE: u32 = 0x02;

    /// The right button.
    pub const RIGHT: u32 = 0x04;

    /// The first side button.
    pub const SIDE1: u32 = 0x08;

    /// The second side button.
    pub const SIDE2: u32 = 0x10;

    /// Every bit that names a button.
    pub const ALL: u32 = 0x1f;

    #[verifier::type_invariant]
    spec fn well_formed(self) -> bool {
        self.bits & !Button::ALL == 0
    }

    /// The flags as a number.
    pub closed spec fn view(self) -> u32 {
        self.bits
    }

    /// The flags as a number. No bit outside [`Button::ALL`] is set.
    pub fn bits(self) -> (bits: u32)
        ensures
            bits == self@,
            bits & !Button::ALL == 0,
    {
        proof {
            use_type_invariant(&self);
        }
        self.bits
    }

    /// The empty set of buttons.
    pub fn empty() -> (none: Button)
        ensures
            none == Button::from_bits_truncate_spec(0),
            none@ == 0,
    {
        assert(0u32 & 0x1fu32 == 0u32) by (bit_vector);
        assert(0u32 & !0x1fu32 == 0) by (bit_vector);
        Button { bits: 0 }
    }

    /// The buttons named by `bits`, as a value; bits that name no button
    /// are dropped.
    pub closed spec fn from_bits_truncate_spec(bits: u32) -> Button {
        Button { bits: bits & Button::ALL }
    }

    /// Two sets with the same flags are the same value.
    pub proof fn lemma_same_bits_same_set(a: Button, b: Button)
        requires
            a@ == b@,
        ensures
            a == b,
    {
    }

    /// The flags of a set made from a number are the number's bits that
    /// name a button.
    pub proof fn lemma_from_bits_truncate(bits: u32)
        ensures
            Button::from_bits_truncate_spec(bits)@ == bits & Button::ALL,
    {
    }

    /// The buttons named by `bits`; bits that name no button are dropped.
    pub fn from_bits_truncate(bits: u32) -> (buttons: Button)
        ensures
            buttons == Button::from_bits_truncate_spec(bits),
            buttons@ == bits & Button::ALL,
    {
        assert((bits & 0x1fu32) & !0x1fu32 == 0) by (bit_vector);
        Button { bits: bits & Button::ALL }
    }

    /// The set that holds the one button `button`.
    pub fn only(button: UnmarkedButton) -> (buttons: Button)
        ensures
            buttons == Button::from_bits_truncate_spec(button.mask_spec()),
            buttons@ == button.mask_spec(),
    {
        assert(0x01u32 & 0x1fu32 == 0x01u32) by (bit_vector);
        assert(0x02u32 & 0x1fu32 == 0x02u32) by (bit_vector);
        assert(0x04u32 & 0x1fu32 == 0x04u32) by (bit_vector);
        assert(0x08u32 & 0x1fu32 == 0x08u32) by (bit_vector);
        assert(0x10u32 & 0x1fu32 == 0x10u32) by (bit_vector);
        assert(0x01u32 & !0x1fu32 == 0) by (bit_vector);
        assert(0x02u32 & !0x1fu32 == 0) by (bit_vector);
        assert(0x04u32 & !0x1fu32 == 0) by (bit_vector);
        assert(0x08u32 & !0x1fu32 == 0) by (bit_vector);
        assert(0x10u32 & !0x1fu32 == 0) by (bit_vector);
        match button {
            UnmarkedButton::Left => Button { bits: Button::LEFT },
            UnmarkedButton::Middle => Button { bits: Button::MIDDLE },
            UnmarkedButton::Right => Button { bits: Button::RIGHT },
            UnmarkedButton::Side1 => Button { bits: Button::SIDE1 },
            UnmarkedButton::Side2 => Button { bits: Button::SIDE2 },
        }
    }

    /// Whether no button is in the set.
    pub fn is_empty(self) -> (b: bool)
        ensures
            b == (self@ == 0),
    {
        self.bits == 0
    }

    /// Whether every button of `other` is in the set.
    pub fn contains(self, other: Button) -> (b: bool)
        ensures
            b == (self@ & other@ == other@),
    {
        self.bits & other.bits == other.bits
    }

    /// Whether some button of `other` is in the set.
    pub fn intersects(self, other: Button) -> (b: bool)
        ensures
            b == (self@ & other@ != 0),
    {
        self.bits & other.bits != 0
    }
}

/// The direction in which a wheel reports its motion.
#[derive(Debug, Clone, Copy, PartialEq, Eq, Hash, Structural)]
pub enum MouseWheelDirection {
    /// Scrolling as reported.
    Normal,
    /// Scrolling reversed: the values are the negative of what the user
    /// would expect.
    Flipped,
}

impl MouseWheelDirection {
    /// The number of this direction: 0 for normal, 1 for flipped.
    pub open spec fn code_spec(self) -> i32 {
        match self {
            MouseWheelDirection::Normal => 0,
            MouseWheelDirection::Flipped => 1,
        }
    }

    /// The number of this direction.
    #[verifier::when_used_as_spec(code_spec)]
    pub fn code(self) -> (code: i32)
        ensures
            code == self.code_spec(),
    {
        match self {
            MouseWheelDirection::Normal => 0,
            MouseWheelDirection::Flipped => 1,
        }
    }

    /// The direction with the given number, if there is one.
    pub fn from_i32(code: i32) -> (direction: Option<MouseWheelDirection>)
        ensures
            match direction {
                Some(d) => d.code_spec() == code,
                None => code != 0 && code != 1,
            },
    {
        match code {
            0 => Some(MouseWheelDirection::Normal),
            1 => Some(MouseWheelDirection::Flipped),
            _ => None,
        }
    }

    /// The direction with the given number; a number that names none is
    /// read as [`MouseWheelDirection::Normal`].
    pub open spec fn from_code_spec(code: i32) -> MouseWheelDirection {
        if code == 1 {
            MouseWheelDirection::Flipped
        } else {
            MouseWheelDirection::Normal
        }
    }

    /// The direction with the given number; a number that names none is
    /// read as [`MouseWheelDirection::Normal`].
    pub fn from_code(code: i32) -> (direction: MouseWheelDirection)
        ensures
            direction == MouseWheelDirection::from_code_spec(code),
    {
        match MouseWheelDirection::from_i32(code) {
            Some(d) => d,
            None => MouseWheelDirection::Normal,
        }
    }
}

} // verus!
