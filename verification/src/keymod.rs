//! The modifier keys held down at one moment.

use vstd::prelude::*;

verus! {

/// The modifier keys held down at one moment, as a set of flags.
///
/// Only the bits of [`Keymod::ALL`] can be set.
#[derive(Debug, Clone, Copy, PartialEq, Eq, Hash, Structural)]
pub struct Keymod {
    bits: u16,
}

impl Keymod {
    /// No modifier.
    pub const NONE: u16 = 0x0000;

    /// The left Shift key.
    pub const LSHIFT: u16 = 0x0001;

    /// The right Shift key.
    pub const RSHIFT: u16 = 0x0002;

    /// The Level 5 Shift key.
    pub const LEVEL5: u16 = 0x0004;

    /// The left Ctrl key.
    pub const LCTRL: u16 = 0x0040;

    /// The right Ctrl key.
    pub const RCTRL: u16 = 0x0080;

    /// The left Alt key.
    pub const LALT: u16 = 0x0100;

    /// The right Alt key.
    pub const RALT: u16 = 0x0200;

    /// The left GUI key (often the Windows key).
    pub const LGUI: u16 = 0x0400;

    /// The right GUI key (often the Windows key).
    pub const RGUI: u16 = 0x0800;

    /// Num Lock is active.
    pub const NUM: u16 = 0x1000;

    /// Caps Lock is active.
    pub const CAPS: u16 = 0x2000;

    /// The AltGr key.
    pub const MODE: u16 = 0x4000;

    /// Scroll Lock is active.
    pub const SCROLL: u16 = 0x8000;

    /// Either Ctrl key.
    pub const CTRL: u16 = 0x00c0;

    /// Either Shift key.
    pub const SHIFT: u16 = 0x0003;

    /// Either Alt key.
    pub const ALT: u16 = 0x0300;

    /// Either GUI key.
    pub const GUI: u16 = 0x0c00;

    /// Every bit that names a modifier.
    pub const ALL: u16 = 0xffc7;

    #[verifier::type_invariant]
    spec fn well_formed(self) -> bool {
        self.bits & !Keymod::ALL == 0
    }

    /// The flags as a number.
    pub closed spec fn view(self) -> u16 {
        self.bits
    }

    /// The flags as a number. No bit outside [`Keymod::ALL`] is set.
    pub fn bits(self) -> (bits: u16)
        ensures
            bits == self@,
            bits & !Keymod::ALL == 0,
    {
        proof {
            use_type_invariant(&self);
        }
        self.bits
    }

    /// The empty set of modifiers.
    pub fn empty() -> (none: Keymod)
        ensures
            none@ == 0,
    {
        assert(0u16 & !0xffc7u16 == 0) by (bit_vector);
        Keymod { bits: 0 }
    }

    /// The modifiers named by `bits`, as a value; bits that name no
    /// modifier are dropped.
    pub closed spec fn from_bits_truncate_spec(bits: u16) -> Keymod {
        Keymod { bits: bits & Keymod::ALL }
    }

    /// Two sets with the same flags are the same value.
    pub proof fn lemma_same_bits_same_set(a: Keymod, b: Keymod)
        requires
            a@ == b@,
        ensures
            a == b,
    {
    }

    /// The flags of a set made from a number are the number's bits that
    /// name a modifier.
    pub proof fn lemma_from_bits_truncate(bits: u16)
        ensures
            Keymod::from_bits_truncate_spec(bits)@ == bits & Keymod::ALL,
    {
    }

    /// The modifiers named by `bits`; bits that name no modifier are
    /// dropped.
    pub fn from_bits_truncate(bits: u16) -> (keymod: Keymod)
        ensures
            keymod == Keymod::from_bits_truncate_spec(bits),
            keymod@ == bits & Keymod::ALL,
    {
        assert((bits & 0xffc7u16) & !0xffc7u16 == 0) by (bit_vector);
        Keymod { bits: bits & Keymod::ALL }
    }

    /// The modifiers named by `bits`, unless a bit names no modifier.
    pub fn from_bits(bits: u16) -> (keymod: Option<Keymod>)
        ensures
            match keymod {
                Some(k) => k@ == bits && bits & !Keymod::ALL == 0,
                None => bits & !Keymod::ALL != 0,
            },
    {
        if bits & !Keymod::ALL == 0 {
            Some(Keymod { bits })
        } else {
            None
        }
    }

    /// Whether no modifier is held.
    pub fn is_empty(self) -> (b: bool)
        ensures
            b == (self@ == 0),
    {
        self.bits == 0
    }

    /// Whether every modifier of `other` is held.
    pub fn contains(self, other: Keymod) -> (b: bool)
        ensures
            b == (self@ & other@ == other@),
    {
        self.bits & other.bits == other.bits
    }

    /// Whether some modifier of `other` is held.
    pub fn intersects(self, other: Keymod) -> (b: bool)
        ensures
            b == (self@ & other@ != 0),
    {
        self.bits & other.bits != 0
    }

    /// The modifiers held in `self` or in `other`.
    pub fn union(self, other: Keymod) -> (both: Keymod)
        ensures
            both@ == self@ | other@,
    {
        proof {
            use_type_invariant(&self);
            use_type_invariant(&other);
        }
        let a: u16 = self.bits;
        let b: u16 = other.bits;
        assert(a & !0xffc7u16 == 0 && b & !0xffc7u16 == 0 ==> (a | b) & !0xffc7u16 == 0)
            by (bit_vector);
        Keymod { bits: a | b }
    }

    /// Whether the flag `flag` is set in `bits`.
    pub open spec fn has(bits: u16, flag: u16) -> bool {
        bits & flag == flag
    }

    /// Whether a Shift key is held.
    pub fn is_shift(self) -> (b: bool)
        ensures
            b == (self@ & Keymod::SHIFT != 0),
            b == (Keymod::has(self@, Keymod::LSHIFT) || Keymod::has(self@, Keymod::RSHIFT)),
    {
        let bits: u16 = self.bits;
        assert((bits & 0x0003u16 != 0) == (bits & 0x0001u16 == 0x0001u16 || bits & 0x0002u16
            == 0x0002u16)) by (bit_vector);
        bits & Keymod::SHIFT != 0
    }

    /// Whether a Ctrl key is held.
    pub fn is_ctrl(self) -> (b: bool)
        ensures
            b == (self@ & Keymod::CTRL != 0),
            b == (Keymod::has(self@, Keymod::LCTRL) || Keymod::has(self@, Keymod::RCTRL)),
    {
        let bits: u16 = self.bits;
        assert((bits & 0x00c0u16 != 0) == (bits & 0x0040u16 == 0x0040u16 || bits & 0x0080u16
            == 0x0080u16)) by (bit_vector);
        bits & Keymod::CTRL != 0
    }

    /// Whether an Alt key is held.
    pub fn is_alt(self) -> (b: bool)
        ensures
            b == (self@ & Keymod::ALT != 0),
            b == (Keymod::has(self@, Keymod::LALT) || Keymod::has(self@, Keymod::RALT)),
    {
        let bits: u16 = self.bits;
        assert((bits & 0x0300u16 != 0) == (bits & 0x0100u16 == 0x0100u16 || bits & 0x0200u16
            == 0x0200u16)) by (bit_vector);
        bits & Keymod::ALT != 0
    }

    /// Whether a GUI key is held.
    pub fn is_gui(self) -> (b: bool)
        ensures
            b == (self@ & Keymod::GUI != 0),
            b == (Keymod::has(self@, Keymod::LGUI) || Keymod::has(self@, Keymod::RGUI)),
    {
        let bits: u16 = self.bits;
        assert((bits & 0x0c00u16 != 0) == (bits & 0x0400u16 == 0x0400u16 || bits & 0x0800u16
            == 0x0800u16)) by (bit_vector);
        bits & Keymod::GUI != 0
    }
}

} // verus!
