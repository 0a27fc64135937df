//! Logical keys: the symbol a key produces under the current layout.

use vstd::prelude::*;

verus! {

/// Bit that marks a key code as an extended key.
pub const EXTENDED_MASK: u32 = 0x2000_0000;

/// Bit that marks a key code as derived from a scancode.
pub const SCANCODE_MASK: u32 = 0x4000_0000;

/// The key code that stands for a key known only by its scancode.
pub open spec fn scancode_to_keycode_spec(scancode: u32) -> u32 {
    scancode | SCANCODE_MASK
}

/// Turns a scancode number into the key code of the same key.
#[verifier::when_used_as_spec(scancode_to_keycode_spec)]
pub fn scancode_to_keycode(scancode: u32) -> (keycode: u32)
    ensures
        keycode == scancode | SCANCODE_MASK,
        keycode & SCANCODE_MASK != 0,
        scancode < SCANCODE_MASK ==> keycode == scancode + SCANCODE_MASK,
{
    assert((scancode | 0x4000_0000u32) & 0x4000_0000u32 != 0) by (bit_vector);
    assert(scancode < 0x4000_0000u32 ==> (scancode | 0x4000_0000u32) == scancode + 0x4000_0000u32)
        by (bit_vector);
    scancode | SCANCODE_MASK
}

/// A logical key: the symbol a key produces under the current layout.
///
/// The set is closed; a number outside it is read as [`KeyCode::Unknown`].
#[derive(Debug, Copy, Clone, PartialEq, Eq, Hash, Structural)]
pub enum KeyCode {
    /// 0
    Unknown,
    /// '\r'
    Return,
    /// '\x1B'
    Escape,
    /// '\b'
    Backspace,
    /// '\t'
    Tab,
    /// ' '
    Space,
    /// '!'
    Exclaim,
    /// '"'
    DoubleApostrophe,
    /// '#'
    Hash,
    /// '$'
    Dollar,
    /// '%'
    Percent,
    /// '&'
    Ampersand,
    /// '\''
    Apostrophe,
    /// '('
    LeftParen,
    /// ')'
    RightParen,
    /// '*'
    Asterisk,
    /// '+'
    Plus,
    /// ','
    Comma,
    /// '-'
    Minus,
    /// '.'
    Period,
    /// '/'
    Slash,
    /// '0'
    Num0,
    /// '1'
    Num1,
    /// '2'
    Num2,
    /// '3'
    Num3,
    /// '4'
    Num4,
    /// '5'
    Num5,
    /// '6'
    Num6,
    /// '7'
    Num7,
    /// '8'
    Num8,
    /// '9'
    Num9,
    /// ':'
    Colon,
    /// ';'
    Semicolon,
    /// '<'
    Less,
    /// '='
    Equals,
    /// '>'
    Greater,
    /// '?'
    Question,
    /// '@'
    At,
    /// '['
    LeftBracket,
    /// '\\'
    Backslash,
    /// ']'
    RightBracket,
    /// '^'
    Caret,
    /// '_'
    Underscore,
    /// '`'
    Grave,
    /// 'a'
    A,
    /// 'b'
    B,
    /// 'c'
    C,
    /// 'd'
    D,
    /// 'e'
    E,
    /// 'f'
    F,
    /// 'g'
    G,
    /// 'h'
    H,
    /// 'i'
    I,
    /// 'j'
    J,
    /// 'k'
    K,
    /// 'l'
    L,
    /// 'm'
    M,
    /// 'n'
    N,
    /// 'o'
    O,
    /// 'p'
    P,
    /// 'q'
    Q,
    /// 'r'
    R,
    /// 's'
    S,
    /// 't'
    T,
    /// 'u'
    U,
    /// 'v'
    V,
    /// 'w'
    W,
    /// 'x'
    X,
    /// 'y'
    Y,
    /// 'z'
    Z,
    /// '{'
    LeftBrace,
    /// '|'
    Pipe,
    /// '}'
    RightBrace,
    /// '~'
    Tilde,
    /// '\x7F'
    Delete,
    /// '\xB1'
    PlusMinus,
    CapsLock,
    F1,
    F2,
    F3,
    F4,
    F5,
    F6,
    F7,
    F8,
    F9,
    F10,
    F11,
    F12,
    PrintScreen,
    ScrollLock,
    Pause,
    Insert,
    Home,
    PageUp,
    End,
    PageDown,
    Right,
    Left,
    Down,
    Up,
    NumLockClear,
    KpDivide,
    KpMultiply,
    KpMinus,
    KpPlus,
    KpEnter,
    Kp1,
    Kp2,
    Kp3,
    Kp4,
    Kp5,
    Kp6,
    Kp7,
    Kp8,
    Kp9,
    Kp0,
    KpPeriod,
    Application,
    Power,
    KpEquals,
    F13,
    F14,
    F15,
    F16,
    F17,
    F18,
    F19,
    F20,
    F21,
    F22,
    F23,
    F24,
    Execute,
    Help,
    Menu,
    Select,
    Stop,
    Again,
    Undo,
    Cut,
    Copy,
    Paste,
    Find,
    Mute,
    VolumeUp,
    VolumeDown,
    KpComma,
    KpEqualsAs400,
    AltErase,
    SysReq,
    Cancel,
    Clear,
    Prior,
    Return2,
    Separator,
    Out,
    Oper,
    ClearAgain,
    CrSel,
    ExSel,
    Kp00,
    Kp000,
    ThousandsSeparator,
    DecimalSeparator,
    CurrencyUnit,
    CurrencySubUnit,
    KpLeftParen,
    KpRightParen,
    KpLeftBrace,
    KpRightBrace,
    KpTab,
    KpBackspace,
    KpA,
    KpB,
    KpC,
    KpD,
    KpE,
    KpF,
    KpXor,
    KpPower,
    KpPercent,
    KpLess,
    KpGreater,
    KpAmpersand,
    KpDoubleAmpersand,
    KpVerticalBar,
    KpDoubleVerticalBar,
    KpColon,
    KpHash,
    KpSpace,
    KpAt,
    KpExclam,
    KpMemStore,
    KpMemRecall,
    KpMemClear,
    KpMemAdd,
    KpMemSubtract,
    KpMemMultiply,
    KpMemDivide,
    KpPlusMinus,
    KpClear,
    KpClearEntry,
    KpBinary,
    KpOctal,
    KpDecimal,
    KpHexadecimal,
    LCtrl,
    LShift,
    LAlt,
    LGui,
    RCtrl,
    RShift,
    RAlt,
    RGui,
    Mode,
    Sleep,
    Wake,
    ChannelIncrement,
    ChannelDecrement,
    MediaPlay,
    MediaPause,
    MediaRecord,
    MediaFastForward,
    MediaRewind,
    MediaNextTrack,
    MediaPreviousTrack,
    MediaStop,
    MediaEject,
    MediaPlayPause,
    MediaSelect,
    AcNew,
    AcOpen,
    AcClose,
    AcExit,
    AcSave,
    AcPrint,
    AcProperties,
    AcSearch,
    AcHome,
    AcBack,
    AcForward,
    AcStop,
    AcRefresh,
    AcBookmarks,
    SoftLeft,
    SoftRight,
    Call,
    EndCall,
    /// Extended key Left Tab
    LeftTab,
    /// Extended key Level 5 Shift
    Level5Shift,
    /// Extended key Multi-key Compose
    MultiKeyCompose,
    /// Extended key Left Meta
    LMeta,
    /// Extended key Right Meta
    RMeta,
    /// Extended key Left Hyper
    LHyper,
    /// Extended key Right Hyper
    RHyper,
}

impl KeyCode {
    /// The number of this key code.
    pub open spec fn code_spec(self) -> u32 {
        match self {
            KeyCode::Unknown => 0x00000000,
            KeyCode::Return => 0x0000000d,
            KeyCode::Escape => 0x0000001b,
            KeyCode::Backspace => 0x00000008,
            KeyCode::Tab => 0x00000009,
            KeyCode::Space => 0x00000020,
            KeyCode::Exclaim => 0x00000021,
            KeyCode::DoubleApostrophe => 0x00000022,
            KeyCode::Hash => 0x00000023,
            KeyCode::Dollar => 0x00000024,
            KeyCode::Percent => 0x00000025,
            KeyCode::Ampersand => 0x00000026,
            KeyCode::Apostrophe => 0x00000027,
            KeyCode::LeftParen => 0x00000028,
            KeyCode::RightParen => 0x00000029,
            KeyCode::Asterisk => 0x0000002a,
            KeyCode::Plus => 0x0000002b,
            KeyCode::Comma => 0x0000002c,
            KeyCode::Minus => 0x0000002d,
            KeyCode::Period => 0x0000002e,
            KeyCode::Slash => 0x0000002f,
            KeyCode::Num0 => 0x00000030,
            KeyCode::Num1 => 0x00000031,
            KeyCode::Num2 => 0x00000032,
            KeyCode::Num3 => 0x00000033,
            KeyCode::Num4 => 0x00000034,
            KeyCode::Num5 => 0x00000035,
            KeyCode::Num6 => 0x00000036,
            KeyCode::Num7 => 0x00000037,
            KeyCode::Num8 => 0x00000038,
            KeyCode::Num9 => 0x00000039,
            KeyCode::Colon => 0x0000003a,
            KeyCode::Semicolon => 0x0000003b,
            KeyCode::Less => 0x0000003c,
            KeyCode::Equals => 0x0000003d,
            KeyCode::Greater => 0x0000003e,
            KeyCode::Question => 0x0000003f,
            KeyCode::At => 0x00000040,
            KeyCode::LeftBracket => 0x0000005b,
            KeyCode::Backslash => 0x0000005c,
            KeyCode::RightBracket => 0x0000005d,
            KeyCode::Caret => 0x0000005e,
            KeyCode::Underscore => 0x0000005f,
            KeyCode::Grave => 0x00000060,
            KeyCode::A => 0x00000061,
            KeyCode::B => 0x00000062,
            KeyCode::C => 0x00000063,
            KeyCode::D => 0x00000064,
            KeyCode::E => 0x00000065,
            KeyCode::F => 0x00000066,
            KeyCode::G => 0x00000067,
            KeyCode::H => 0x00000068,
            KeyCode::I => 0x00000069,
            KeyCode::J => 0x0000006a,
            KeyCode::K => 0x0000006b,
            KeyCode::L => 0x0000006c,
            KeyCode::M => 0x0000006d,
            KeyCode::N => 0x0000006e,
            KeyCode::O => 0x0000006f,
            KeyCode::P => 0x00000070,
            KeyCode::Q => 0x00000071,
            KeyCode::R => 0x00000072,
            KeyCode::S => 0x00000073,
            KeyCode::T => 0x00000074,
            KeyCode::U => 0x00000075,
            KeyCode::V => 0x00000076,
            KeyCode::W => 0x00000077,
            KeyCode::X => 0x00000078,
            KeyCode::Y => 0x00000079,
            KeyCode::Z => 0x0000007a,
            KeyCode::LeftBrace => 0x0000007b,
            KeyCode::Pipe => 0x0000007c,
            KeyCode::RightBrace => 0x0000007d,
            KeyCode::Tilde => 0x0000007e,
            KeyCode::Delete => 0x0000007f,
            KeyCode::PlusMinus => 0x000000b1,
            KeyCode::CapsLock => 0x40000039,
            KeyCode::F1 => 0x4000003a,
            KeyCode::F2 => 0x4000003b,
            KeyCode::F3 => 0x4000003c,
            KeyCode::F4 => 0x4000003d,
            KeyCode::F5 => 0x4000003e,
            KeyCode::F6 => 0x4000003f,
            KeyCode::F7 => 0x40000040,
            KeyCode::F8 => 0x40000041,
            KeyCode::F9 => 0x40000042,
            KeyCode::F10 => 0x40000043,
            KeyCode::F11 => 0x40000044,
            KeyCode::F12 => 0x40000045,
            KeyCode::PrintScreen => 0x40000046,
            KeyCode::ScrollLock => 0x40000047,
            KeyCode::Pause => 0x40000048,
            KeyCode::Insert => 0x40000049,
            KeyCode::Home => 0x4000004a,
            KeyCode::PageUp => 0x4000004b,
            KeyCode::End => 0x4000004d,
            KeyCode::PageDown => 0x4000004e,
            KeyCode::Right => 0x4000004f,
            KeyCode::Left => 0x40000050,
            KeyCode::Down => 0x40000051,
            KeyCode::Up => 0x40000052,
            KeyCode::NumLockClear => 0x40000053,
            KeyCode::KpDivide => 0x40000054,
            KeyCode::KpMultiply => 0x40000055,
            KeyCode::KpMinus => 0x40000056,
            KeyCode::KpPlus => 0x40000057,
            KeyCode::KpEnter => 0x40000058,
            KeyCode::Kp1 => 0x40000059,
            KeyCode::Kp2 => 0x4000005a,
            KeyCode::Kp3 => 0x4000005b,
            KeyCode::Kp4 => 0x4000005c,
            KeyCode::Kp5 => 0x4000005d,
            KeyCode::Kp6 => 0x4000005e,
            KeyCode::Kp7 => 0x4000005f,
            KeyCode::Kp8 => 0x40000060,
            KeyCode::Kp9 => 0x40000061,
            KeyCode::Kp0 => 0x40000062,
            KeyCode::KpPeriod => 0x40000063,
            KeyCode::Application => 0x40000065,
            KeyCode::Power => 0x40000066,
            KeyCode::KpEquals => 0x40000067,
            KeyCode::F13 => 0x40000068,
            KeyCode::F14 => 0x40000069,
            KeyCode::F15 => 0x4000006a,
            KeyCode::F16 => 0x4000006b,
            KeyCode::F17 => 0x4000006c,
            KeyCode::F18 => 0x4000006d,
            KeyCode::F19 => 0x4000006e,
            KeyCode::F20 => 0x4000006f,
            KeyCode::F21 => 0x40000070,
            KeyCode::F22 => 0x40000071,
            KeyCode::F23 => 0x40000072,
            KeyCode::F24 => 0x40000073,
            KeyCode::Execute => 0x40000074,
            KeyCode::Help => 0x40000075,
            KeyCode::Menu => 0x40000076,
            KeyCode::Select => 0x40000077,
            KeyCode::Stop => 0x40000078,
            KeyCode::Again => 0x40000079,
            KeyCode::Undo => 0x4000007a,
            KeyCode::Cut => 0x4000007b,
            KeyCode::Copy => 0x4000007c,
            KeyCode::Paste => 0x4000007d,
            KeyCode::Find => 0x4000007e,
            KeyCode::Mute => 0x4000007f,
            KeyCode::VolumeUp => 0x40000080,
            KeyCode::VolumeDown => 0x40000081,
            KeyCode::KpComma => 0x40000085,
            KeyCode::KpEqualsAs400 => 0x40000086,
            KeyCode::AltErase => 0x40000099,
            KeyCode::SysReq => 0x4000009a,
            KeyCode::Cancel => 0x4000009b,
            KeyCode::Clear => 0x4000009c,
            KeyCode::Prior => 0x4000009d,
            KeyCode::Return2 => 0x4000009e,
            KeyCode::Separator => 0x4000009f,
            KeyCode::Out => 0x400000a0,
            KeyCode::Oper => 0x400000a1,
            KeyCode::ClearAgain => 0x400000a2,
            KeyCode::CrSel => 0x400000a3,
            KeyCode::ExSel => 0x400000a4,
            KeyCode::Kp00 => 0x400000b0,
            KeyCode::Kp000 => 0x400000b1,
            KeyCode::ThousandsSeparator => 0x400000b2,
            KeyCode::DecimalSeparator => 0x400000b3,
            KeyCode::CurrencyUnit => 0x400000b4,
            KeyCode::CurrencySubUnit => 0x400000b5,
            KeyCode::KpLeftParen => 0x400000b6,
            KeyCode::KpRightParen => 0x400000b7,
            KeyCode::KpLeftBrace => 0x400000b8,
            KeyCode::KpRightBrace => 0x400000b9,
            KeyCode::KpTab => 0x400000ba,
            KeyCode::KpBackspace => 0x400000bb,
            KeyCode::KpA => 0x400000bc,
            KeyCode::KpB => 0x400000bd,
            KeyCode::KpC => 0x400000be,
            KeyCode::KpD => 0x400000bf,
            KeyCode::KpE => 0x400000c0,
            KeyCode::KpF => 0x400000c1,
            KeyCode::KpXor => 0x400000c2,
            KeyCode::KpPower => 0x400000c3,
            KeyCode::KpPercent => 0x400000c4,
            KeyCode::KpLess => 0x400000c5,
            KeyCode::KpGreater => 0x400000c6,
            KeyCode::KpAmpersand => 0x400000c7,
            KeyCode::KpDoubleAmpersand => 0x400000c8,
            KeyCode::KpVerticalBar => 0x400000c9,
            KeyCode::KpDoubleVerticalBar => 0x400000ca,
            KeyCode::KpColon => 0x400000cb,
            KeyCode::KpHash => 0x400000cc,
            KeyCode::KpSpace => 0x400000cd,
            KeyCode::KpAt => 0x400000ce,
            KeyCode::KpExclam => 0x400000cf,
            KeyCode::KpMemStore => 0x400000d0,
            KeyCode::KpMemRecall => 0x400000d1,
            KeyCode::KpMemClear => 0x400000d2,
            KeyCode::KpMemAdd => 0x400000d3,
            KeyCode::KpMemSubtract => 0x400000d4,
            KeyCode::KpMemMultiply => 0x400000d5,
            KeyCode::KpMemDivide => 0x400000d6,
            KeyCode::KpPlusMinus => 0x400000d7,
            KeyCode::KpClear => 0x400000d8,
            KeyCode::KpClearEntry => 0x400000d9,
            KeyCode::KpBinary => 0x400000da,
            KeyCode::KpOctal => 0x400000db,
            KeyCode::KpDecimal => 0x400000dc,
            KeyCode::KpHexadecimal => 0x400000dd,
            KeyCode::LCtrl => 0x400000e0,
            KeyCode::LShift => 0x400000e1,
            KeyCode::LAlt => 0x400000e2,
            KeyCode::LGui => 0x400000e3,
            KeyCode::RCtrl => 0x400000e4,
            KeyCode::RShift => 0x400000e5,
            KeyCode::RAlt => 0x400000e6,
            KeyCode::RGui => 0x400000e7,
            KeyCode::Mode => 0x40000101,
            KeyCode::Sleep => 0x40000102,
            KeyCode::Wake => 0x40000103,
            KeyCode::ChannelIncrement => 0x40000104,
            KeyCode::ChannelDecrement => 0x40000105,
            KeyCode::MediaPlay => 0x40000106,
            KeyCode::MediaPause => 0x40000107,
            KeyCode::MediaRecord => 0x40000108,
            KeyCode::MediaFastForward => 0x40000109,
            KeyCode::MediaRewind => 0x4000010a,
            KeyCode::MediaNextTrack => 0x4000010b,
            KeyCode::MediaPreviousTrack => 0x4000010c,
            KeyCode::MediaStop => 0x4000010d,
            KeyCode::MediaEject => 0x4000010e,
            KeyCode::MediaPlayPause => 0x4000010f,
            KeyCode::MediaSelect => 0x40000110,
            KeyCode::AcNew => 0x40000111,
            KeyCode::AcOpen => 0x40000112,
            KeyCode::AcClose => 0x40000113,
            KeyCode::AcExit => 0x40000114,
            KeyCode::AcSave => 0x40000115,
            KeyCode::AcPrint => 0x40000116,
            KeyCode::AcProperties => 0x40000117,
            KeyCode::AcSearch => 0x40000118,
            KeyCode::AcHome => 0x40000119,
            KeyCode::AcBack => 0x4000011a,
            KeyCode::AcForward => 0x4000011b,
            KeyCode::AcStop => 0x4000011c,
            KeyCode::AcRefresh => 0x4000011d,
            KeyCode::AcBookmarks => 0x4000011e,
            KeyCode::SoftLeft => 0x4000011f,
            KeyCode::SoftRight => 0x40000120,
            KeyCode::Call => 0x40000121,
            KeyCode::EndCall => 0x40000122,
            KeyCode::LeftTab => 0x20000001,
            KeyCode::Level5Shift => 0x20000002,
            KeyCode::MultiKeyCompose => 0x20000003,
            KeyCode::LMeta => 0x20000004,
            KeyCode::RMeta => 0x20000005,
            KeyCode::LHyper => 0x20000006,
            KeyCode::RHyper => 0x20000007,
        }
    }

    /// The number of this key code.
    #[verifier::when_used_as_spec(code_spec)]
    pub fn code(self) -> (code: u32)
        ensures
            code == self.code_spec(),
    {
        match self {
            KeyCode::Unknown => 0x00000000,
            KeyCode::Return => 0x0000000d,
            KeyCode::Escape => 0x0000001b,
            KeyCode::Backspace => 0x00000008,
            KeyCode::Tab => 0x00000009,
            KeyCode::Space => 0x00000020,
            KeyCode::Exclaim => 0x00000021,
            KeyCode::DoubleApostrophe => 0x00000022,
            KeyCode::Hash => 0x00000023,
            KeyCode::Dollar => 0x00000024,
            KeyCode::Percent => 0x00000025,
            KeyCode::Ampersand => 0x00000026,
            KeyCode::Apostrophe => 0x00000027,
            KeyCode::LeftParen => 0x00000028,
            KeyCode::RightParen => 0x00000029,
            KeyCode::Asterisk => 0x0000002a,
            KeyCode::Plus => 0x0000002b,
            KeyCode::Comma => 0x0000002c,
            KeyCode::Minus => 0x0000002d,
            KeyCode::Period => 0x0000002e,
            KeyCode::Slash => 0x0000002f,
            KeyCode::Num0 => 0x00000030,
            KeyCode::Num1 => 0x00000031,
            KeyCode::Num2 => 0x00000032,
            KeyCode::Num3 => 0x00000033,
            KeyCode::Num4 => 0x00000034,
            KeyCode::Num5 => 0x00000035,
            KeyCode::Num6 => 0x00000036,
            KeyCode::Num7 => 0x00000037,
            KeyCode::Num8 => 0x00000038,
            KeyCode::Num9 => 0x00000039,
            KeyCode::Colon => 0x0000003a,
            KeyCode::Semicolon => 0x0000003b,
            KeyCode::Less => 0x0000003c,
            KeyCode::Equals => 0x0000003d,
            KeyCode::Greater => 0x0000003e,
            KeyCode::Question => 0x0000003f,
            KeyCode::At => 0x00000040,
            KeyCode::LeftBracket => 0x0000005b,
            KeyCode::Backslash => 0x0000005c,
            KeyCode::RightBracket => 0x0000005d,
            KeyCode::Caret => 0x0000005e,
            KeyCode::Underscore => 0x0000005f,
            KeyCode::Grave => 0x00000060,
            KeyCode::A => 0x00000061,
            KeyCode::B => 0x00000062,
            KeyCode::C => 0x00000063,
            KeyCode::D => 0x00000064,
            KeyCode::E => 0x00000065,
            KeyCode::F => 0x00000066,
            KeyCode::G => 0x00000067,
            KeyCode::H => 0x00000068,
            KeyCode::I => 0x00000069,
            KeyCode::J => 0x0000006a,
            KeyCode::K => 0x0000006b,
            KeyCode::L => 0x0000006c,
            KeyCode::M => 0x0000006d,
            KeyCode::N => 0x0000006e,
            KeyCode::O => 0x0000006f,
            KeyCode::P => 0x00000070,
            KeyCode::Q => 0x00000071,
            KeyCode::R => 0x00000072,
            KeyCode::S => 0x00000073,
            KeyCode::T => 0x00000074,
            KeyCode::U => 0x00000075,
            KeyCode::V => 0x00000076,
            KeyCode::W => 0x00000077,
            KeyCode::X => 0x00000078,
            KeyCode::Y => 0x00000079,
            KeyCode::Z => 0x0000007a,
            KeyCode::LeftBrace => 0x0000007b,
            KeyCode::Pipe => 0x0000007c,
            KeyCode::RightBrace => 0x0000007d,
            KeyCode::Tilde => 0x0000007e,
            KeyCode::Delete => 0x0000007f,
            KeyCode::PlusMinus => 0x000000b1,
            KeyCode::CapsLock => 0x40000039,
            KeyCode::F1 => 0x4000003a,
            KeyCode::F2 => 0x4000003b,
            KeyCode::F3 => 0x4000003c,
            KeyCode::F4 => 0x4000003d,
            KeyCode::F5 => 0x4000003e,
            KeyCode::F6 => 0x4000003f,
            KeyCode::F7 => 0x40000040,
            KeyCode::F8 => 0x40000041,
            KeyCode::F9 => 0x40000042,
            KeyCode::F10 => 0x40000043,
            KeyCode::F11 => 0x40000044,
            KeyCode::F12 => 0x40000045,
            KeyCode::PrintScreen => 0x40000046,
            KeyCode::ScrollLock => 0x40000047,
            KeyCode::Pause => 0x40000048,
            KeyCode::Insert => 0x40000049,
            KeyCode::Home => 0x4000004a,
            KeyCode::PageUp => 0x4000004b,
            KeyCode::End => 0x4000004d,
            KeyCode::PageDown => 0x4000004e,
            KeyCode::Right => 0x4000004f,
            KeyCode::Left => 0x40000050,
            KeyCode::Down => 0x40000051,
            KeyCode::Up => 0x40000052,
            KeyCode::NumLockClear => 0x40000053,
            KeyCode::KpDivide => 0x40000054,
            KeyCode::KpMultiply => 0x40000055,
            KeyCode::KpMinus => 0x40000056,
            KeyCode::KpPlus => 0x40000057,
            KeyCode::KpEnter => 0x40000058,
            KeyCode::Kp1 => 0x40000059,
            KeyCode::Kp2 => 0x4000005a,
            KeyCode::Kp3 => 0x4000005b,
            KeyCode::Kp4 => 0x4000005c,
            KeyCode::Kp5 => 0x4000005d,
            KeyCode::Kp6 => 0x4000005e,
            KeyCode::Kp7 => 0x4000005f,
            KeyCode::Kp8 => 0x40000060,
            KeyCode::Kp9 => 0x40000061,
            KeyCode::Kp0 => 0x40000062,
            KeyCode::KpPeriod => 0x40000063,
            KeyCode::Application => 0x40000065,
            KeyCode::Power => 0x40000066,
            KeyCode::KpEquals => 0x40000067,
            KeyCode::F13 => 0x40000068,
            KeyCode::F14 => 0x40000069,
            KeyCode::F15 => 0x4000006a,
            KeyCode::F16 => 0x4000006b,
            KeyCode::F17 => 0x4000006c,
            KeyCode::F18 => 0x4000006d,
            KeyCode::F19 => 0x4000006e,
            KeyCode::F20 => 0x4000006f,
            KeyCode::F21 => 0x40000070,
            KeyCode::F22 => 0x40000071,
            KeyCode::F23 => 0x40000072,
            KeyCode::F24 => 0x40000073,
            KeyCode::Execute => 0x40000074,
            KeyCode::Help => 0x40000075,
            KeyCode::Menu => 0x40000076,
            KeyCode::Select => 0x40000077,
            KeyCode::Stop => 0x40000078,
            KeyCode::Again => 0x40000079,
            KeyCode::Undo => 0x4000007a,
            KeyCode::Cut => 0x4000007b,
            KeyCode::Copy => 0x4000007c,
            KeyCode::Paste => 0x4000007d,
            KeyCode::Find => 0x4000007e,
            KeyCode::Mute => 0x4000007f,
            KeyCode::VolumeUp => 0x40000080,
            KeyCode::VolumeDown => 0x40000081,
            KeyCode::KpComma => 0x40000085,
            KeyCode::KpEqualsAs400 => 0x40000086,
            KeyCode::AltErase => 0x40000099,
            KeyCode::SysReq => 0x4000009a,
            KeyCode::Cancel => 0x4000009b,
            KeyCode::Clear => 0x4000009c,
            KeyCode::Prior => 0x4000009d,
            KeyCode::Return2 => 0x4000009e,
            KeyCode::Separator => 0x4000009f,
            KeyCode::Out => 0x400000a0,
            KeyCode::Oper => 0x400000a1,
            KeyCode::ClearAgain => 0x400000a2,
            KeyCode::CrSel => 0x400000a3,
            KeyCode::ExSel => 0x400000a4,
            KeyCode::Kp00 => 0x400000b0,
            KeyCode::Kp000 => 0x400000b1,
            KeyCode::ThousandsSeparator => 0x400000b2,
            KeyCode::DecimalSeparator => 0x400000b3,
            KeyCode::CurrencyUnit => 0x400000b4,
            KeyCode::CurrencySubUnit => 0x400000b5,
            KeyCode::KpLeftParen => 0x400000b6,
            KeyCode::KpRightParen => 0x400000b7,
            KeyCode::KpLeftBrace => 0x400000b8,
            KeyCode::KpRightBrace => 0x400000b9,
            KeyCode::KpTab => 0x400000ba,
            KeyCode::KpBackspace => 0x400000bb,
            KeyCode::KpA => 0x400000bc,
            KeyCode::KpB => 0x400000bd,
            KeyCode::KpC => 0x400000be,
            KeyCode::KpD => 0x400000bf,
            KeyCode::KpE => 0x400000c0,
            KeyCode::KpF => 0x400000c1,
            KeyCode::KpXor => 0x400000c2,
            KeyCode::KpPower => 0x400000c3,
            KeyCode::KpPercent => 0x400000c4,
            KeyCode::KpLess => 0x400000c5,
            KeyCode::KpGreater => 0x400000c6,
            KeyCode::KpAmpersand => 0x400000c7,
            KeyCode::KpDoubleAmpersand => 0x400000c8,
            KeyCode::KpVerticalBar => 0x400000c9,
            KeyCode::KpDoubleVerticalBar => 0x400000ca,
            KeyCode::KpColon => 0x400000cb,
            KeyCode::KpHash => 0x400000cc,
            KeyCode::KpSpace => 0x400000cd,
            KeyCode::KpAt => 0x400000ce,
            KeyCode::KpExclam => 0x400000cf,
            KeyCode::KpMemStore => 0x400000d0,
            KeyCode::KpMemRecall => 0x400000d1,
            KeyCode::KpMemClear => 0x400000d2,
            KeyCode::KpMemAdd => 0x400000d3,
            KeyCode::KpMemSubtract => 0x400000d4,
            KeyCode::KpMemMultiply => 0x400000d5,
            KeyCode::KpMemDivide => 0x400000d6,
            KeyCode::KpPlusMinus => 0x400000d7,
            KeyCode::KpClear => 0x400000d8,
            KeyCode::KpClearEntry => 0x400000d9,
            KeyCode::KpBinary => 0x400000da,
            KeyCode::KpOctal => 0x400000db,
            KeyCode::KpDecimal => 0x400000dc,
            KeyCode::KpHexadecimal => 0x400000dd,
            KeyCode::LCtrl => 0x400000e0,
            KeyCode::LShift => 0x400000e1,
            KeyCode::LAlt => 0x400000e2,
            KeyCode::LGui => 0x400000e3,
            KeyCode::RCtrl => 0x400000e4,
            KeyCode::RShift => 0x400000e5,
            KeyCode::RAlt => 0x400000e6,
            KeyCode::RGui => 0x400000e7,
            KeyCode::Mode => 0x40000101,
            KeyCode::Sleep => 0x40000102,
            KeyCode::Wake => 0x40000103,
            KeyCode::ChannelIncrement => 0x40000104,
            KeyCode::ChannelDecrement => 0x40000105,
            KeyCode::MediaPlay => 0x40000106,
            KeyCode::MediaPause => 0x40000107,
            KeyCode::MediaRecord => 0x40000108,
            KeyCode::MediaFastForward => 0x40000109,
            KeyCode::MediaRewind => 0x4000010a,
            KeyCode::MediaNextTrack => 0x4000010b,
            KeyCode::MediaPreviousTrack => 0x4000010c,
            KeyCode::MediaStop => 0x4000010d,
            KeyCode::MediaEject => 0x4000010e,
            KeyCode::MediaPlayPause => 0x4000010f,
            KeyCode::MediaSelect => 0x40000110,
            KeyCode::AcNew => 0x40000111,
            KeyCode::AcOpen => 0x40000112,
            KeyCode::AcClose => 0x40000113,
            KeyCode::AcExit => 0x40000114,
            KeyCode::AcSave => 0x40000115,
            KeyCode::AcPrint => 0x40000116,
            KeyCode::AcProperties => 0x40000117,
            KeyCode::AcSearch => 0x40000118,
            KeyCode::AcHome => 0x40000119,
            KeyCode::AcBack => 0x4000011a,
            KeyCode::AcForward => 0x4000011b,
            KeyCode::AcStop => 0x4000011c,
            KeyCode::AcRefresh => 0x4000011d,
            KeyCode::AcBookmarks => 0x4000011e,
            KeyCode::SoftLeft => 0x4000011f,
            KeyCode::SoftRight => 0x40000120,
            KeyCode::Call => 0x40000121,
            KeyCode::EndCall => 0x40000122,
            KeyCode::LeftTab => 0x20000001,
            KeyCode::Level5Shift => 0x20000002,
            KeyCode::MultiKeyCompose => 0x20000003,
            KeyCode::LMeta => 0x20000004,
            KeyCode::RMeta => 0x20000005,
            KeyCode::LHyper => 0x20000006,
            KeyCode::RHyper => 0x20000007,
        }
    }

    /// The key code with the given number, if there is one.
    #[verifier::rlimit(100)]
    pub fn from_u32(code: u32) -> (key: Option<KeyCode>)
        ensures
            match key {
                Some(k) => k.code_spec() == code,
                None => forall|k: KeyCode| k.code_spec() != code,
            },
    {
        match code {
            0x00000000 => Some(KeyCode::Unknown),
            0x0000000d => Some(KeyCode::Return),
            0x0000001b => Some(KeyCode::Escape),
            0x00000008 => Some(KeyCode::Backspace),
            0x00000009 => Some(KeyCode::Tab),
            0x00000020 => Some(KeyCode::Space),
            0x00000021 => Some(KeyCode::Exclaim),
            0x00000022 => Some(KeyCode::DoubleApostrophe),
            0x00000023 => Some(KeyCode::Hash),
            0x00000024 => Some(KeyCode::Dollar),
            0x00000025 => Some(KeyCode::Percent),
            0x00000026 => Some(KeyCode::Ampersand),
            0x00000027 => Some(KeyCode::Apostrophe),
            0x00000028 => Some(KeyCode::LeftParen),
            0x00000029 => Some(KeyCode::RightParen),
            0x0000002a => Some(KeyCode::Asterisk),
            0x0000002b => Some(KeyCode::Plus),
            0x0000002c => Some(KeyCode::Comma),
            0x0000002d => Some(KeyCode::Minus),
            0x0000002e => Some(KeyCode::Period),
            0x0000002f => Some(KeyCode::Slash),
            0x00000030 => Some(KeyCode::Num0),
            0x00000031 => Some(KeyCode::Num1),
            0x00000032 => Some(KeyCode::Num2),
            0x00000033 => Some(KeyCode::Num3),
            0x00000034 => Some(KeyCode::Num4),
            0x00000035 => Some(KeyCode::Num5),
            0x00000036 => Some(KeyCode::Num6),
            0x00000037 => Some(KeyCode::Num7),
            0x00000038 => Some(KeyCode::Num8),
            0x00000039 => Some(KeyCode::Num9),
            0x0000003a => Some(KeyCode::Colon),
            0x0000003b => Some(KeyCode::Semicolon),
            0x0000003c => Some(KeyCode::Less),
            0x0000003d => Some(KeyCode::Equals),
            0x0000003e => Some(KeyCode::Greater),
            0x0000003f => Some(KeyCode::Question),
            0x00000040 => Some(KeyCode::At),
            0x0000005b => Some(KeyCode::LeftBracket),
            0x0000005c => Some(KeyCode::Backslash),
            0x0000005d => Some(KeyCode::RightBracket),
            0x0000005e => Some(KeyCode::Caret),
            0x0000005f => Some(KeyCode::Underscore),
            0x00000060 => Some(KeyCode::Grave),
            0x00000061 => Some(KeyCode::A),
            0x00000062 => Some(KeyCode::B),
            0x00000063 => Some(KeyCode::C),
            0x00000064 => Some(KeyCode::D),
            0x00000065 => Some(KeyCode::E),
            0x00000066 => Some(KeyCode::F),
            0x00000067 => Some(KeyCode::G),
            0x00000068 => Some(KeyCode::H),
            0x00000069 => Some(KeyCode::I),
            0x0000006a => Some(KeyCode::J),
            0x0000006b => Some(KeyCode::K),
            0x0000006c => Some(KeyCode::L),
            0x0000006d => Some(KeyCode::M),
            0x0000006e => Some(KeyCode::N),
            0x0000006f => Some(KeyCode::O),
            0x00000070 => Some(KeyCode::P),
            0x00000071 => Some(KeyCode::Q),
            0x00000072 => Some(KeyCode::R),
            0x00000073 => Some(KeyCode::S),
            0x00000074 => Some(KeyCode::T),
            0x00000075 => Some(KeyCode::U),
            0x00000076 => Some(KeyCode::V),
            0x00000077 => Some(KeyCode::W),
            0x00000078 => Some(KeyCode::X),
            0x00000079 => Some(KeyCode::Y),
            0x0000007a => Some(KeyCode::Z),
            0x0000007b => Some(KeyCode::LeftBrace),
            0x0000007c => Some(KeyCode::Pipe),
            0x0000007d => Some(KeyCode::RightBrace),
            0x0000007e => Some(KeyCode::Tilde),
            0x0000007f => Some(KeyCode::Delete),
            0x000000b1 => Some(KeyCode::PlusMinus),
            0x40000039 => Some(KeyCode::CapsLock),
            0x4000003a => Some(KeyCode::F1),
            0x4000003b => Some(KeyCode::F2),
            0x4000003c => Some(KeyCode::F3),
            0x4000003d => Some(KeyCode::F4),
            0x4000003e => Some(KeyCode::F5),
            0x4000003f => Some(KeyCode::F6),
            0x40000040 => Some(KeyCode::F7),
            0x40000041 => Some(KeyCode::F8),
            0x40000042 => Some(KeyCode::F9),
            0x40000043 => Some(KeyCode::F10),
            0x40000044 => Some(KeyCode::F11),
            0x40000045 => Some(KeyCode::F12),
            0x40000046 => Some(KeyCode::PrintScreen),
            0x40000047 => Some(KeyCode::ScrollLock),
            0x40000048 => Some(KeyCode::Pause),
            0x40000049 => Some(KeyCode::Insert),
            0x4000004a => Some(KeyCode::Home),
            0x4000004b => Some(KeyCode::PageUp),
            0x4000004d => Some(KeyCode::End),
            0x4000004e => Some(KeyCode::PageDown),
            0x4000004f => Some(KeyCode::Right),
            0x40000050 => Some(KeyCode::Left),
            0x40000051 => Some(KeyCode::Down),
            0x40000052 => Some(KeyCode::Up),
            0x40000053 => Some(KeyCode::NumLockClear),
            0x40000054 => Some(KeyCode::KpDivide),
            0x40000055 => Some(KeyCode::KpMultiply),
            0x40000056 => Some(KeyCode::KpMinus),
            0x40000057 => Some(KeyCode::KpPlus),
            0x40000058 => Some(KeyCode::KpEnter),
            0x40000059 => Some(KeyCode::Kp1),
            0x4000005a => Some(KeyCode::Kp2),
            0x4000005b => Some(KeyCode::Kp3),
            0x4000005c => Some(KeyCode::Kp4),
            0x4000005d => Some(KeyCode::Kp5),
            0x4000005e => Some(KeyCode::Kp6),
            0x4000005f => Some(KeyCode::Kp7),
            0x40000060 => Some(KeyCode::Kp8),
            0x40000061 => Some(KeyCode::Kp9),
            0x40000062 => Some(KeyCode::Kp0),
            0x40000063 => Some(KeyCode::KpPeriod),
            0x40000065 => Some(KeyCode::Application),
            0x40000066 => Some(KeyCode::Power),
            0x40000067 => Some(KeyCode::KpEquals),
            0x40000068 => Some(KeyCode::F13),
            0x40000069 => Some(KeyCode::F14),
            0x4000006a => Some(KeyCode::F15),
            0x4000006b => Some(KeyCode::F16),
            0x4000006c => Some(KeyCode::F17),
            0x4000006d => Some(KeyCode::F18),
            0x4000006e => Some(KeyCode::F19),
            0x4000006f => Some(KeyCode::F20),
            0x40000070 => Some(KeyCode::F21),
            0x40000071 => Some(KeyCode::F22),
            0x40000072 => Some(KeyCode::F23),
            0x40000073 => Some(KeyCode::F24),
            0x40000074 => Some(KeyCode::Execute),
            0x40000075 => Some(KeyCode::Help),
            0x40000076 => Some(KeyCode::Menu),
            0x40000077 => Some(KeyCode::Select),
            0x40000078 => Some(KeyCode::Stop),
            0x40000079 => Some(KeyCode::Again),
            0x4000007a => Some(KeyCode::Undo),
            0x4000007b => Some(KeyCode::Cut),
            0x4000007c => Some(KeyCode::Copy),
            0x4000007d => Some(KeyCode::Paste),
            0x4000007e => Some(KeyCode::Find),
            0x4000007f => Some(KeyCode::Mute),
            0x40000080 => Some(KeyCode::VolumeUp),
            0x40000081 => Some(KeyCode::VolumeDown),
            0x40000085 => Some(KeyCode::KpComma),
            0x40000086 => Some(KeyCode::KpEqualsAs400),
            0x40000099 => Some(KeyCode::AltErase),
            0x4000009a => Some(KeyCode::SysReq),
            0x4000009b => Some(KeyCode::Cancel),
            0x4000009c => Some(KeyCode::Clear),
            0x4000009d => Some(KeyCode::Prior),
            0x4000009e => Some(KeyCode::Return2),
            0x4000009f => Some(KeyCode::Separator),
            0x400000a0 => Some(KeyCode::Out),
            0x400000a1 => Some(KeyCode::Oper),
            0x400000a2 => Some(KeyCode::ClearAgain),
            0x400000a3 => Some(KeyCode::CrSel),
            0x400000a4 => Some(KeyCode::ExSel),
            0x400000b0 => Some(KeyCode::Kp00),
            0x400000b1 => Some(KeyCode::Kp000),
            0x400000b2 => Some(KeyCode::ThousandsSeparator),
            0x400000b3 => Some(KeyCode::DecimalSeparator),
            0x400000b4 => Some(KeyCode::CurrencyUnit),
            0x400000b5 => Some(KeyCode::CurrencySubUnit),
            0x400000b6 => Some(KeyCode::KpLeftParen),
            0x400000b7 => Some(KeyCode::KpRightParen),
            0x400000b8 => Some(KeyCode::KpLeftBrace),
            0x400000b9 => Some(KeyCode::KpRightBrace),
            0x400000ba => Some(KeyCode::KpTab),
            0x400000bb => Some(KeyCode::KpBackspace),
            0x400000bc => Some(KeyCode::KpA),
            0x400000bd => Some(KeyCode::KpB),
            0x400000be => Some(KeyCode::KpC),
            0x400000bf => Some(KeyCode::KpD),
            0x400000c0 => Some(KeyCode::KpE),
            0x400000c1 => Some(KeyCode::KpF),
            0x400000c2 => Some(KeyCode::KpXor),
            0x400000c3 => Some(KeyCode::KpPower),
            0x400000c4 => Some(KeyCode::KpPercent),
            0x400000c5 => Some(KeyCode::KpLess),
            0x400000c6 => Some(KeyCode::KpGreater),
            0x400000c7 => Some(KeyCode::KpAmpersand),
            0x400000c8 => Some(KeyCode::KpDoubleAmpersand),
            0x400000c9 => Some(KeyCode::KpVerticalBar),
            0x400000ca => Some(KeyCode::KpDoubleVerticalBar),
            0x400000cb => Some(KeyCode::KpColon),
            0x400000cc => Some(KeyCode::KpHash),
            0x400000cd => Some(KeyCode::KpSpace),
            0x400000ce => Some(KeyCode::KpAt),
            0x400000cf => Some(KeyCode::KpExclam),
            0x400000d0 => Some(KeyCode::KpMemStore),
            0x400000d1 => Some(KeyCode::KpMemRecall),
            0x400000d2 => Some(KeyCode::KpMemClear),
            0x400000d3 => Some(KeyCode::KpMemAdd),
            0x400000d4 => Some(KeyCode::KpMemSubtract),
            0x400000d5 => Some(KeyCode::KpMemMultiply),
            0x400000d6 => Some(KeyCode::KpMemDivide),
            0x400000d7 => Some(KeyCode::KpPlusMinus),
            0x400000d8 => Some(KeyCode::KpClear),
            0x400000d9 => Some(KeyCode::KpClearEntry),
            0x400000da => Some(KeyCode::KpBinary),
            0x400000db => Some(KeyCode::KpOctal),
            0x400000dc => Some(KeyCode::KpDecimal),
            0x400000dd => Some(KeyCode::KpHexadecimal),
            0x400000e0 => Some(KeyCode::LCtrl),
            0x400000e1 => Some(KeyCode::LShift),
            0x400000e2 => Some(KeyCode::LAlt),
            0x400000e3 => Some(KeyCode::LGui),
            0x400000e4 => Some(KeyCode::RCtrl),
            0x400000e5 => Some(KeyCode::RShift),
            0x400000e6 => Some(KeyCode::RAlt),
            0x400000e7 => Some(KeyCode::RGui),
            0x40000101 => Some(KeyCode::Mode),
            0x40000102 => Some(KeyCode::Sleep),
            0x40000103 => Some(KeyCode::Wake),
            0x40000104 => Some(KeyCode::ChannelIncrement),
            0x40000105 => Some(KeyCode::ChannelDecrement),
            0x40000106 => Some(KeyCode::MediaPlay),
            0x40000107 => Some(KeyCode::MediaPause),
            0x40000108 => Some(KeyCode::MediaRecord),
            0x40000109 => Some(KeyCode::MediaFastForward),
            0x4000010a => Some(KeyCode::MediaRewind),
            0x4000010b => Some(KeyCode::MediaNextTrack),
            0x4000010c => Some(KeyCode::MediaPreviousTrack),
            0x4000010d => Some(KeyCode::MediaStop),
            0x4000010e => Some(KeyCode::MediaEject),
            0x4000010f => Some(KeyCode::MediaPlayPause),
            0x40000110 => Some(KeyCode::MediaSelect),
            0x40000111 => Some(KeyCode::AcNew),
            0x40000112 => Some(KeyCode::AcOpen),
            0x40000113 => Some(KeyCode::AcClose),
            0x40000114 => Some(KeyCode::AcExit),
            0x40000115 => Some(KeyCode::AcSave),
            0x40000116 => Some(KeyCode::AcPrint),
            0x40000117 => Some(KeyCode::AcProperties),
            0x40000118 => Some(KeyCode::AcSearch),
            0x40000119 => Some(KeyCode::AcHome),
            0x4000011a => Some(KeyCode::AcBack),
            0x4000011b => Some(KeyCode::AcForward),
            0x4000011c => Some(KeyCode::AcStop),
            0x4000011d => Some(KeyCode::AcRefresh),
            0x4000011e => Some(KeyCode::AcBookmarks),
            0x4000011f => Some(KeyCode::SoftLeft),
            0x40000120 => Some(KeyCode::SoftRight),
            0x40000121 => Some(KeyCode::Call),
            0x40000122 => Some(KeyCode::EndCall),
            0x20000001 => Some(KeyCode::LeftTab),
            0x20000002 => Some(KeyCode::Level5Shift),
            0x20000003 => Some(KeyCode::MultiKeyCompose),
            0x20000004 => Some(KeyCode::LMeta),
            0x20000005 => Some(KeyCode::RMeta),
            0x20000006 => Some(KeyCode::LHyper),
            0x20000007 => Some(KeyCode::RHyper),
            _ => None,
        }
    }

    /// The key code with the given number, or [`KeyCode::Unknown`] where
    /// the number names no key.
    pub open spec fn from_code_spec(code: u32) -> KeyCode {
        if exists|k: KeyCode| k.code_spec() == code {
            choose|k: KeyCode| k.code_spec() == code
        } else {
            KeyCode::Unknown
        }
    }

    /// The key code with the given number, or [`KeyCode::Unknown`] where
    /// the number names no key.
    pub fn from_code(code: u32) -> (key: KeyCode)
        ensures
            key == KeyCode::from_code_spec(code),
            key.code_spec() == code || (key == KeyCode::Unknown && forall|k: KeyCode|
                k.code_spec() != code),
    {
        match KeyCode::from_u32(code) {
            Some(k) => {
                proof {
                    KeyCode::lemma_code_injective(k, KeyCode::from_code_spec(code));
                }
                k
            },
            None => KeyCode::Unknown,
        }
    }

    /// Whether this key code is derived from a scancode.
    pub fn is_scancode(&self) -> (b: bool)
        ensures
            b == (self.code_spec() & SCANCODE_MASK != 0),
    {
        (self.code() & SCANCODE_MASK) != 0
    }

    /// Whether this key code is an extended key.
    pub fn is_extended(&self) -> (b: bool)
        ensures
            b == (self.code_spec() & EXTENDED_MASK != 0),
    {
        (self.code() & EXTENDED_MASK) != 0
    }

    /// Two key codes with the same number are the same key code.
    pub proof fn lemma_code_injective(a: KeyCode, b: KeyCode)
        requires
            a.code_spec() == b.code_spec(),
        ensures
            a == b,
    {
    }

    /// Reading a key code's own number gives the key code back.
    pub proof fn lemma_from_code_round_trip(k: KeyCode)
        ensures
            KeyCode::from_code_spec(k.code_spec()) == k,
    {
        KeyCode::lemma_code_injective(k, KeyCode::from_code_spec(k.code_spec()));
    }
}

} // verus!
