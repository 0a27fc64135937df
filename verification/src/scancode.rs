//! Physical keys: positions on the keyboard, whatever the layout.

use vstd::prelude::*;

verus! {

/// A physical key position, independent of the keyboard layout.
///
/// The set is closed; a number outside it is read as [`Scancode::Unknown`].
#[derive(Debug, Copy, Clone, PartialEq, Eq, Hash, Structural)]
pub enum Scancode {
    Unknown,
    A,
    B,
    C,
    D,
    E,
    F,
    G,
    H,
    I,
    J,
    K,
    L,
    M,
    N,
    O,
    P,
    Q,
    R,
    S,
    T,
    U,
    V,
    W,
    X,
    Y,
    Z,
    Num1,
    Num2,
    Num3,
    Num4,
    Num5,
    Num6,
    Num7,
    Num8,
    Num9,
    Num0,
    Return,
    Escape,
    Backspace,
    Tab,
    Space,
    Minus,
    Equals,
    LeftBracket,
    RightBracket,
    /// Located at the lower left of the return key on ISO keyboards and at the right end of the QWERTY row on ANSI keyboards.
    Backslash,
    /// ISO USB keyboards use this code instead of 49 for the same key;
    /// operating systems treat the two codes alike.
    NonUsHash,
    Semicolon,
    Apostrophe,
    /// Located in the top left corner (on both ANSI and ISO keyboards).
    Grave,
    Comma,
    Period,
    Slash,
    CapsLock,
    F1,
    F2,
    F3,
    F4,
    F5,
    F6,
    F7,
    F8,
    F9,
    F10,
    F11,
    F12,
    PrintScreen,
    ScrollLock,
    Pause,
    /// insert on PC, help on some Mac keyboards (but does send code 73, not 117)
    Insert,
    Home,
    PageUp,
    Delete,
    End,
    PageDown,
    Right,
    Left,
    Down,
    Up,
    /// num lock on PC, clear on Mac keyboards
    NumLockClear,
    KpDivide,
    KpMultiply,
    KpMinus,
    KpPlus,
    KpEnter,
    Kp1,
    Kp2,
    Kp3,
    Kp4,
    Kp5,
    Kp6,
    Kp7,
    Kp8,
    Kp9,
    Kp0,
    KpPeriod,
    /// This is the additional key that ISO keyboards have over ANSI ones, located between left shift and Z.
    NonUsBackslash,
    /// windows contextual menu, compose
    Application,
    /// The USB document says this is a status flag, not a physical key - but some Mac keyboards do have a power key.
    Power,
    KpEquals,
    F13,
    F14,
    F15,
    F16,
    F17,
    F18,
    F19,
    F20,
    F21,
    F22,
    F23,
    F24,
    Execute,
    /// AL Integrated Help Center
    Help,
    /// Menu (show menu)
    Menu,
    Select,
    /// AC Stop
    Stop,
    /// AC Redo/Repeat
    Again,
    /// AC Undo
    Undo,
    /// AC Cut
    Cut,
    /// AC Copy
    Copy,
    /// AC Paste
    Paste,
    /// AC Find
    Find,
    Mute,
    VolumeUp,
    VolumeDown,
    KpComma,
    KpEqualsAs400,
    /// Used on Asian keyboards.
    International1,
    International2,
    /// Yen
    International3,
    International4,
    International5,
    International6,
    International7,
    International8,
    International9,
    /// Hangul/English toggle
    Lang1,
    /// Hanja conversion
    Lang2,
    /// Katakana
    Lang3,
    /// Hiragana
    Lang4,
    /// Zenkaku/Hankaku
    Lang5,
    /// Kept for later use.
    Lang6,
    /// Kept for later use.
    Lang7,
    /// Kept for later use.
    Lang8,
    /// Kept for later use.
    Lang9,
    /// Erase-Eaze
    AltErase,
    SysReq,
    /// AC Cancel
    Cancel,
    Clear,
    Prior,
    Return2,
    Separator,
    Out,
    Oper,
    ClearAgain,
    CrSel,
    ExSel,
    Kp00,
    Kp000,
    ThousandsSeparator,
    DecimalSeparator,
    CurrencyUnit,
    CurrencySubunit,
    KpLeftParen,
    KpRightParen,
    KpLeftBrace,
    KpRightBrace,
    KpTab,
    KpBackspace,
    KpA,
    KpB,
    KpC,
    KpD,
    KpE,
    KpF,
    KpXor,
    KpPower,
    KpPercent,
    KpLess,
    KpGreater,
    KpAmpersand,
    KpDblAmpersand,
    KpVerticalBar,
    KpDblVerticalBar,
    KpColon,
    KpHash,
    KpSpace,
    KpAt,
    KpExclam,
    KpMemStore,
    KpMemRecall,
    KpMemClear,
    KpMemAdd,
    KpMemSubtract,
    KpMemMultiply,
    KpMemDivide,
    KpPlusMinus,
    KpClear,
    KpClearEntry,
    KpBinary,
    KpOctal,
    KpDecimal,
    KpHexadecimal,
    LCtrl,
    LShift,
    /// alt, option
    LAlt,
    /// windows, command (apple), meta
    LGui,
    RCtrl,
    RShift,
    /// alt gr, option
    RAlt,
    /// windows, command (apple), meta
    RGui,
    Mode,
    /// Sleep
    Sleep,
    /// Wake
    Wake,
    /// Channel Increment
    ChannelIncrement,
    /// Channel Decrement
    ChannelDecrement,
    /// Play
    MediaPlay,
    /// Pause
    MediaPause,
    /// Record
    MediaRecord,
    /// Fast Forward
    MediaFastForward,
    /// Rewind
    MediaRewind,
    /// Next Track
    MediaNextTrack,
    /// Previous Track
    MediaPreviousTrack,
    /// Stop
    MediaStop,
    /// Eject
    MediaEject,
    /// Play / Pause
    MediaPlayPause,
    /// Media Select
    MediaSelect,
    /// AC New
    AcNew,
    /// AC Open
    AcOpen,
    /// AC Close
    AcClose,
    /// AC Exit
    AcExit,
    /// AC Save
    AcSave,
    /// AC Print
    AcPrint,
    /// AC Properties
    AcProperties,
    /// AC Search
    AcSearch,
    /// AC Home
    AcHome,
    /// AC Back
    AcBack,
    /// AC Forward
    AcForward,
    /// AC Stop
    AcStop,
    /// AC Refresh
    AcRefresh,
    /// AC Bookmarks
    AcBookmarks,
    /// Usually situated below the display on phones and used as a multi-function feature key
    SoftLeft,
    /// Usually situated below the display on phones and used as a multi-function feature key
    SoftRight,
    /// Used for accepting phone calls.
    Call,
    /// Used for rejecting phone calls.
    EndCall,
    /// The first of the numbers that are kept for key codes made at run
    /// time.
    Reserved,
}

impl Scancode {
    /// One more than the largest number a scancode can have.
    pub const COUNT: usize = 512;

    /// The number of this scancode.
    pub open spec fn code_spec(self) -> u32 {
        match self {
            Scancode::Unknown => 0,
            Scancode::A => 4,
            Scancode::B => 5,
            Scancode::C => 6,
            Scancode::D => 7,
            Scancode::E => 8,
            Scancode::F => 9,
            Scancode::G => 10,
            Scancode::H => 11,
            Scancode::I => 12,
            Scancode::J => 13,
            Scancode::K => 14,
            Scancode::L => 15,
            Scancode::M => 16,
            Scancode::N => 17,
            Scancode::O => 18,
            Scancode::P => 19,
            Scancode::Q => 20,
            Scancode::R => 21,
            Scancode::S => 22,
            Scancode::T => 23,
            Scancode::U => 24,
            Scancode::V => 25,
            Scancode::W => 26,
            Scancode::X => 27,
            Scancode::Y => 28,
            Scancode::Z => 29,
            Scancode::Num1 => 30,
            Scancode::Num2 => 31,
            Scancode::Num3 => 32,
            Scancode::Num4 => 33,
            Scancode::Num5 => 34,
            Scancode::Num6 => 35,
            Scancode::Num7 => 36,
            Scancode::Num8 => 37,
            Scancode::Num9 => 38,
            Scancode::Num0 => 39,
            Scancode::Return => 40,
            Scancode::Escape => 41,
            Scancode::Backspace => 42,
            Scancode::Tab => 43,
            Scancode::Space => 44,
            Scancode::Minus => 45,
            Scancode::Equals => 46,
            Scancode::LeftBracket => 47,
            Scancode::RightBracket => 48,
            Scancode::Backslash => 49,
            Scancode::NonUsHash => 50,
            Scancode::Semicolon => 51,
            Scancode::Apostrophe => 52,
            Scancode::Grave => 53,
            Scancode::Comma => 54,
            Scancode::Period => 55,
            Scancode::Slash => 56,
            Scancode::CapsLock => 57,
            Scancode::F1 => 58,
            Scancode::F2 => 59,
            Scancode::F3 => 60,
            Scancode::F4 => 61,
            Scancode::F5 => 62,
            Scancode::F6 => 63,
            Scancode::F7 => 64,
            Scancode::F8 => 65,
            Scancode::F9 => 66,
            Scancode::F10 => 67,
            Scancode::F11 => 68,
            Scancode::F12 => 69,
            Scancode::PrintScreen => 70,
            Scancode::ScrollLock => 71,
            Scancode::Pause => 72,
            Scancode::Insert => 73,
            Scancode::Home => 74,
            Scancode::PageUp => 75,
            Scancode::Delete => 76,
            Scancode::End => 77,
            Scancode::PageDown => 78,
            Scancode::Right => 79,
            Scancode::Left => 80,
            Scancode::Down => 81,
            Scancode::Up => 82,
            Scancode::NumLockClear => 83,
            Scancode::KpDivide => 84,
            Scancode::KpMultiply => 85,
            Scancode::KpMinus => 86,
            Scancode::KpPlus => 87,
            Scancode::KpEnter => 88,
            Scancode::Kp1 => 89,
            Scancode::Kp2 => 90,
            Scancode::Kp3 => 91,
            Scancode::Kp4 => 92,
            Scancode::Kp5 => 93,
            Scancode::Kp6 => 94,
            Scancode::Kp7 => 95,
            Scancode::Kp8 => 96,
            Scancode::Kp9 => 97,
            Scancode::Kp0 => 98,
            Scancode::KpPeriod => 99,
            Scancode::NonUsBackslash => 100,
            Scancode::Application => 101,
            Scancode::Power => 102,
            Scancode::KpEquals => 103,
            Scancode::F13 => 104,
            Scancode::F14 => 105,
            Scancode::F15 => 106,
            Scancode::F16 => 107,
            Scancode::F17 => 108,
            Scancode::F18 => 109,
            Scancode::F19 => 110,
            Scancode::F20 => 111,
            Scancode::F21 => 112,
            Scancode::F22 => 113,
            Scancode::F23 => 114,
            Scancode::F24 => 115,
            Scancode::Execute => 116,
            Scancode::Help => 117,
            Scancode::Menu => 118,
            Scancode::Select => 119,
            Scancode::Stop => 120,
            Scancode::Again => 121,
            Scancode::Undo => 122,
            Scancode::Cut => 123,
            Scancode::Copy => 124,
            Scancode::Paste => 125,
            Scancode::Find => 126,
            Scancode::Mute => 127,
            Scancode::VolumeUp => 128,
            Scancode::VolumeDown => 129,
            Scancode::KpComma => 133,
            Scancode::KpEqualsAs400 => 134,
            Scancode::International1 => 135,
            Scancode::International2 => 136,
            Scancode::International3 => 137,
            Scancode::International4 => 138,
            Scancode::International5 => 139,
            Scancode::International6 => 140,
            Scancode::International7 => 141,
            Scancode::International8 => 142,
            Scancode::International9 => 143,
            Scancode::Lang1 => 144,
            Scancode::Lang2 => 145,
            Scancode::Lang3 => 146,
            Scancode::Lang4 => 147,
            Scancode::Lang5 => 148,
            Scancode::Lang6 => 149,
            Scancode::Lang7 => 150,
            Scancode::Lang8 => 151,
            Scancode::Lang9 => 152,
            Scancode::AltErase => 153,
            Scancode::SysReq => 154,
            Scancode::Cancel => 155,
            Scancode::Clear => 156,
            Scancode::Prior => 157,
            Scancode::Return2 => 158,
            Scancode::Separator => 159,
            Scancode::Out => 160,
            Scancode::Oper => 161,
            Scancode::ClearAgain => 162,
            Scancode::CrSel => 163,
            Scancode::ExSel => 164,
            Scancode::Kp00 => 176,
            Scancode::Kp000 => 177,
            Scancode::ThousandsSeparator => 178,
            Scancode::DecimalSeparator => 179,
            Scancode::CurrencyUnit => 180,
            Scancode::CurrencySubunit => 181,
            Scancode::KpLeftParen => 182,
            Scancode::KpRightParen => 183,
            Scancode::KpLeftBrace => 184,
            Scancode::KpRightBrace => 185,
            Scancode::KpTab => 186,
            Scancode::KpBackspace => 187,
            Scancode::KpA => 188,
            Scancode::KpB => 189,
            Scancode::KpC => 190,
            Scancode::KpD => 191,
            Scancode::KpE => 192,
            Scancode::KpF => 193,
            Scancode::KpXor => 194,
            Scancode::KpPower => 195,
            Scancode::KpPercent => 196,
            Scancode::KpLess => 197,
            Scancode::KpGreater => 198,
            Scancode::KpAmpersand => 199,
            Scancode::KpDblAmpersand => 200,
            Scancode::KpVerticalBar => 201,
            Scancode::KpDblVerticalBar => 202,
            Scancode::KpColon => 203,
            Scancode::KpHash => 204,
            Scancode::KpSpace => 205,
            Scancode::KpAt => 206,
            Scancode::KpExclam => 207,
            Scancode::KpMemStore => 208,
            Scancode::KpMemRecall => 209,
            Scancode::KpMemClear => 210,
            Scancode::KpMemAdd => 211,
            Scancode::KpMemSubtract => 212,
            Scancode::KpMemMultiply => 213,
            Scancode::KpMemDivide => 214,
            Scancode::KpPlusMinus => 215,
            Scancode::KpClear => 216,
            Scancode::KpClearEntry => 217,
            Scancode::KpBinary => 218,
            Scancode::KpOctal => 219,
            Scancode::KpDecimal => 220,
            Scancode::KpHexadecimal => 221,
            Scancode::LCtrl => 224,
            Scancode::LShift => 225,
            Scancode::LAlt => 226,
            Scancode::LGui => 227,
            Scancode::RCtrl => 228,
            Scancode::RShift => 229,
            Scancode::RAlt => 230,
            Scancode::RGui => 231,
            Scancode::Mode => 257,
            Scancode::Sleep => 258,
            Scancode::Wake => 259,
            Scancode::ChannelIncrement => 260,
            Scancode::ChannelDecrement => 261,
            Scancode::MediaPlay => 262,
            Scancode::MediaPause => 263,
            Scancode::MediaRecord => 264,
            Scancode::MediaFastForward => 265,
            Scancode::MediaRewind => 266,
            Scancode::MediaNextTrack => 267,
            Scancode::MediaPreviousTrack => 268,
            Scancode::MediaStop => 269,
            Scancode::MediaEject => 270,
            Scancode::MediaPlayPause => 271,
            Scancode::MediaSelect => 272,
            Scancode::AcNew => 273,
            Scancode::AcOpen => 274,
            Scancode::AcClose => 275,
            Scancode::AcExit => 276,
            Scancode::AcSave => 277,
            Scancode::AcPrint => 278,
            Scancode::AcProperties => 279,
            Scancode::AcSearch => 280,
            Scancode::AcHome => 281,
            Scancode::AcBack => 282,
            Scancode::AcForward => 283,
            Scancode::AcStop => 284,
            Scancode::AcRefresh => 285,
            Scancode::AcBookmarks => 286,
            Scancode::SoftLeft => 287,
            Scancode::SoftRight => 288,
            Scancode::Call => 289,
            Scancode::EndCall => 290,
            Scancode::Reserved => 400,
        }
    }

    /// The number of this scancode.
    #[verifier::when_used_as_spec(code_spec)]
    pub fn code(self) -> (code: u32)
        ensures
            code == self.code_spec(),
            code < Scancode::COUNT,
    {
        match self {
            Scancode::Unknown => 0,
            Scancode::A => 4,
            Scancode::B => 5,
            Scancode::C => 6,
            Scancode::D => 7,
            Scancode::E => 8,
            Scancode::F => 9,
            Scancode::G => 10,
            Scancode::H => 11,
            Scancode::I => 12,
            Scancode::J => 13,
            Scancode::K => 14,
            Scancode::L => 15,
            Scancode::M => 16,
            Scancode::N => 17,
            Scancode::O => 18,
            Scancode::P => 19,
            Scancode::Q => 20,
            Scancode::R => 21,
            Scancode::S => 22,
            Scancode::T => 23,
            Scancode::U => 24,
            Scancode::V => 25,
            Scancode::W => 26,
            Scancode::X => 27,
            Scancode::Y => 28,
            Scancode::Z => 29,
            Scancode::Num1 => 30,
            Scancode::Num2 => 31,
            Scancode::Num3 => 32,
            Scancode::Num4 => 33,
            Scancode::Num5 => 34,
            Scancode::Num6 => 35,
            Scancode::Num7 => 36,
            Scancode::Num8 => 37,
            Scancode::Num9 => 38,
            Scancode::Num0 => 39,
            Scancode::Return => 40,
            Scancode::Escape => 41,
            Scancode::Backspace => 42,
            Scancode::Tab => 43,
            Scancode::Space => 44,
            Scancode::Minus => 45,
            Scancode::Equals => 46,
            Scancode::LeftBracket => 47,
            Scancode::RightBracket => 48,
            Scancode::Backslash => 49,
            Scancode::NonUsHash => 50,
            Scancode::Semicolon => 51,
            Scancode::Apostrophe => 52,
            Scancode::Grave => 53,
            Scancode::Comma => 54,
            Scancode::Period => 55,
            Scancode::Slash => 56,
            Scancode::CapsLock => 57,
            Scancode::F1 => 58,
            Scancode::F2 => 59,
            Scancode::F3 => 60,
            Scancode::F4 => 61,
            Scancode::F5 => 62,
            Scancode::F6 => 63,
            Scancode::F7 => 64,
            Scancode::F8 => 65,
            Scancode::F9 => 66,
            Scancode::F10 => 67,
            Scancode::F11 => 68,
            Scancode::F12 => 69,
            Scancode::PrintScreen => 70,
            Scancode::ScrollLock => 71,
            Scancode::Pause => 72,
            Scancode::Insert => 73,
            Scancode::Home => 74,
            Scancode::PageUp => 75,
            Scancode::Delete => 76,
            Scancode::End => 77,
            Scancode::PageDown => 78,
            Scancode::Right => 79,
            Scancode::Left => 80,
            Scancode::Down => 81,
            Scancode::Up => 82,
            Scancode::NumLockClear => 83,
            Scancode::KpDivide => 84,
            Scancode::KpMultiply => 85,
            Scancode::KpMinus => 86,
            Scancode::KpPlus => 87,
            Scancode::KpEnter => 88,
            Scancode::Kp1 => 89,
            Scancode::Kp2 => 90,
            Scancode::Kp3 => 91,
            Scancode::Kp4 => 92,
            Scancode::Kp5 => 93,
            Scancode::Kp6 => 94,
            Scancode::Kp7 => 95,
            Scancode::Kp8 => 96,
            Scancode::Kp9 => 97,
            Scancode::Kp0 => 98,
            Scancode::KpPeriod => 99,
            Scancode::NonUsBackslash => 100,
            Scancode::Application => 101,
            Scancode::Power => 102,
            Scancode::KpEquals => 103,
            Scancode::F13 => 104,
            Scancode::F14 => 105,
            Scancode::F15 => 106,
            Scancode::F16 => 107,
            Scancode::F17 => 108,
            Scancode::F18 => 109,
            Scancode::F19 => 110,
            Scancode::F20 => 111,
            Scancode::F21 => 112,
            Scancode::F22 => 113,
            Scancode::F23 => 114,
            Scancode::F24 => 115,
            Scancode::Execute => 116,
            Scancode::Help => 117,
            Scancode::Menu => 118,
            Scancode::Select => 119,
            Scancode::Stop => 120,
            Scancode::Again => 121,
            Scancode::Undo => 122,
            Scancode::Cut => 123,
            Scancode::Copy => 124,
            Scancode::Paste => 125,
            Scancode::Find => 126,
            Scancode::Mute => 127,
            Scancode::VolumeUp => 128,
            Scancode::VolumeDown => 129,
            Scancode::KpComma => 133,
            Scancode::KpEqualsAs400 => 134,
            Scancode::International1 => 135,
            Scancode::International2 => 136,
            Scancode::International3 => 137,
            Scancode::International4 => 138,
            Scancode::International5 => 139,
            Scancode::International6 => 140,
            Scancode::International7 => 141,
            Scancode::International8 => 142,
            Scancode::International9 => 143,
            Scancode::Lang1 => 144,
            Scancode::Lang2 => 145,
            Scancode::Lang3 => 146,
            Scancode::Lang4 => 147,
            Scancode::Lang5 => 148,
            Scancode::Lang6 => 149,
            Scancode::Lang7 => 150,
            Scancode::Lang8 => 151,
            Scancode::Lang9 => 152,
            Scancode::AltErase => 153,
            Scancode::SysReq => 154,
            Scancode::Cancel => 155,
            Scancode::Clear => 156,
            Scancode::Prior => 157,
            Scancode::Return2 => 158,
            Scancode::Separator => 159,
            Scancode::Out => 160,
            Scancode::Oper => 161,
            Scancode::ClearAgain => 162,
            Scancode::CrSel => 163,
            Scancode::ExSel => 164,
            Scancode::Kp00 => 176,
            Scancode::Kp000 => 177,
            Scancode::ThousandsSeparator => 178,
            Scancode::DecimalSeparator => 179,
            Scancode::CurrencyUnit => 180,
            Scancode::CurrencySubunit => 181,
            Scancode::KpLeftParen => 182,
            Scancode::KpRightParen => 183,
            Scancode::KpLeftBrace => 184,
            Scancode::KpRightBrace => 185,
            Scancode::KpTab => 186,
            Scancode::KpBackspace => 187,
            Scancode::KpA => 188,
            Scancode::KpB => 189,
            Scancode::KpC => 190,
            Scancode::KpD => 191,
            Scancode::KpE => 192,
            Scancode::KpF => 193,
            Scancode::KpXor => 194,
            Scancode::KpPower => 195,
            Scancode::KpPercent => 196,
            Scancode::KpLess => 197,
            Scancode::KpGreater => 198,
            Scancode::KpAmpersand => 199,
            Scancode::KpDblAmpersand => 200,
            Scancode::KpVerticalBar => 201,
            Scancode::KpDblVerticalBar => 202,
            Scancode::KpColon => 203,
            Scancode::KpHash => 204,
            Scancode::KpSpace => 205,
            Scancode::KpAt => 206,
            Scancode::KpExclam => 207,
            Scancode::KpMemStore => 208,
            Scancode::KpMemRecall => 209,
            Scancode::KpMemClear => 210,
            Scancode::KpMemAdd => 211,
            Scancode::KpMemSubtract => 212,
            Scancode::KpMemMultiply => 213,
            Scancode::KpMemDivide => 214,
            Scancode::KpPlusMinus => 215,
            Scancode::KpClear => 216,
            Scancode::KpClearEntry => 217,
            Scancode::KpBinary => 218,
            Scancode::KpOctal => 219,
            Scancode::KpDecimal => 220,
            Scancode::KpHexadecimal => 221,
            Scancode::LCtrl => 224,
            Scancode::LShift => 225,
            Scancode::LAlt => 226,
            Scancode::LGui => 227,
            Scancode::RCtrl => 228,
            Scancode::RShift => 229,
            Scancode::RAlt => 230,
            Scancode::RGui => 231,
            Scancode::Mode => 257,
            Scancode::Sleep => 258,
            Scancode::Wake => 259,
            Scancode::ChannelIncrement => 260,
            Scancode::ChannelDecrement => 261,
            Scancode::MediaPlay => 262,
            Scancode::MediaPause => 263,
            Scancode::MediaRecord => 264,
            Scancode::MediaFastForward => 265,
            Scancode::MediaRewind => 266,
            Scancode::MediaNextTrack => 267,
            Scancode::MediaPreviousTrack => 268,
            Scancode::MediaStop => 269,
            Scancode::MediaEject => 270,
            Scancode::MediaPlayPause => 271,
            Scancode::MediaSelect => 272,
            Scancode::AcNew => 273,
            Scancode::AcOpen => 274,
            Scancode::AcClose => 275,
            Scancode::AcExit => 276,
            Scancode::AcSave => 277,
            Scancode::AcPrint => 278,
            Scancode::AcProperties => 279,
            Scancode::AcSearch => 280,
            Scancode::AcHome => 281,
            Scancode::AcBack => 282,
            Scancode::AcForward => 283,
            Scancode::AcStop => 284,
            Scancode::AcRefresh => 285,
            Scancode::AcBookmarks => 286,
            Scancode::SoftLeft => 287,
            Scancode::SoftRight => 288,
            Scancode::Call => 289,
            Scancode::EndCall => 290,
            Scancode::Reserved => 400,
        }
    }

    /// The scancode with the given number, if there is one.
    #[verifier::rlimit(100)]
    pub fn from_u32(code: u32) -> (key: Option<Scancode>)
        ensures
            match key {
                Some(k) => k.code_spec() == code,
                None => forall|k: Scancode| k.code_spec() != code,
            },
    {
        match code {
            0 => Some(Scancode::Unknown),
            4 => Some(Scancode::A),
            5 => Some(Scancode::B),
            6 => Some(Scancode::C),
            7 => Some(Scancode::D),
            8 => Some(Scancode::E),
            9 => Some(Scancode::F),
            10 => Some(Scancode::G),
            11 => Some(Scancode::H),
            12 => Some(Scancode::I),
            13 => Some(Scancode::J),
            14 => Some(Scancode::K),
            15 => Some(Scancode::L),
            16 => Some(Scancode::M),
            17 => Some(Scancode::N),
            18 => Some(Scancode::O),
            19 => Some(Scancode::P),
            20 => Some(Scancode::Q),
            21 => Some(Scancode::R),
            22 => Some(Scancode::S),
            23 => Some(Scancode::T),
            24 => Some(Scancode::U),
            25 => Some(Scancode::V),
            26 => Some(Scancode::W),
            27 => Some(Scancode::X),
            28 => Some(Scancode::Y),
            29 => Some(Scancode::Z),
            30 => Some(Scancode::Num1),
            31 => Some(Scancode::Num2),
            32 => Some(Scancode::Num3),
            33 => Some(Scancode::Num4),
            34 => Some(Scancode::Num5),
            35 => Some(Scancode::Num6),
            36 => Some(Scancode::Num7),
            37 => Some(Scancode::Num8),
            38 => Some(Scancode::Num9),
            39 => Some(Scancode::Num0),
            40 => Some(Scancode::Return),
            41 => Some(Scancode::Escape),
            42 => Some(Scancode::Backspace),
            43 => Some(Scancode::Tab),
            44 => Some(Scancode::Space),
            45 => Some(Scancode::Minus),
            46 => Some(Scancode::Equals),
            47 => Some(Scancode::LeftBracket),
            48 => Some(Scancode::RightBracket),
            49 => Some(Scancode::Backslash),
            50 => Some(Scancode::NonUsHash),
            51 => Some(Scancode::Semicolon),
            52 => Some(Scancode::Apostrophe),
            53 => Some(Scancode::Grave),
            54 => Some(Scancode::Comma),
            55 => Some(Scancode::Period),
            56 => Some(Scancode::Slash),
            57 => Some(Scancode::CapsLock),
            58 => Some(Scancode::F1),
            59 => Some(Scancode::F2),
            60 => Some(Scancode::F3),
            61 => Some(Scancode::F4),
            62 => Some(Scancode::F5),
            63 => Some(Scancode::F6),
            64 => Some(Scancode::F7),
            65 => Some(Scancode::F8),
            66 => Some(Scancode::F9),
            67 => Some(Scancode::F10),
            68 => Some(Scancode::F11),
            69 => Some(Scancode::F12),
            70 => Some(Scancode::PrintScreen),
            71 => Some(Scancode::ScrollLock),
            72 => Some(Scancode::Pause),
            73 => Some(Scancode::Insert),
            74 => Some(Scancode::Home),
            75 => Some(Scancode::PageUp),
            76 => Some(Scancode::Delete),
            77 => Some(Scancode::End),
            78 => Some(Scancode::PageDown),
            79 => Some(Scancode::Right),
            80 => Some(Scancode::Left),
            81 => Some(Scancode::Down),
            82 => Some(Scancode::Up),
            83 => Some(Scancode::NumLockClear),
            84 => Some(Scancode::KpDivide),
            85 => Some(Scancode::KpMultiply),
            86 => Some(Scancode::KpMinus),
            87 => Some(Scancode::KpPlus),
            88 => Some(Scancode::KpEnter),
            89 => Some(Scancode::Kp1),
            90 => Some(Scancode::Kp2),
            91 => Some(Scancode::Kp3),
            92 => Some(Scancode::Kp4),
            93 => Some(Scancode::Kp5),
            94 => Some(Scancode::Kp6),
            95 => Some(Scancode::Kp7),
            96 => Some(Scancode::Kp8),
            97 => Some(Scancode::Kp9),
            98 => Some(Scancode::Kp0),
            99 => Some(Scancode::KpPeriod),
            100 => Some(Scancode::NonUsBackslash),
            101 => Some(Scancode::Application),
            102 => Some(Scancode::Power),
            103 => Some(Scancode::KpEquals),
            104 => Some(Scancode::F13),
            105 => Some(Scancode::F14),
            106 => Some(Scancode::F15),
            107 => Some(Scancode::F16),
            108 => Some(Scancode::F17),
            109 => Some(Scancode::F18),
            110 => Some(Scancode::F19),
            111 => Some(Scancode::F20),
            112 => Some(Scancode::F21),
            113 => Some(Scancode::F22),
            114 => Some(Scancode::F23),
            115 => Some(Scancode::F24),
            116 => Some(Scancode::Execute),
            117 => Some(Scancode::Help),
            118 => Some(Scancode::Menu),
            119 => Some(Scancode::Select),
            120 => Some(Scancode::Stop),
            121 => Some(Scancode::Again),
            122 => Some(Scancode::Undo),
            123 => Some(Scancode::Cut),
            124 => Some(Scancode::Copy),
            125 => Some(Scancode::Paste),
            126 => Some(Scancode::Find),
            127 => Some(Scancode::Mute),
            128 => Some(Scancode::VolumeUp),
            129 => Some(Scancode::VolumeDown),
            133 => Some(Scancode::KpComma),
            134 => Some(Scancode::KpEqualsAs400),
            135 => Some(Scancode::International1),
            136 => Some(Scancode::International2),
            137 => Some(Scancode::International3),
            138 => Some(Scancode::International4),
            139 => Some(Scancode::International5),
            140 => Some(Scancode::International6),
            141 => Some(Scancode::International7),
            142 => Some(Scancode::International8),
            143 => Some(Scancode::International9),
            144 => Some(Scancode::Lang1),
            145 => Some(Scancode::Lang2),
            146 => Some(Scancode::Lang3),
            147 => Some(Scancode::Lang4),
            148 => Some(Scancode::Lang5),
            149 => Some(Scancode::Lang6),
            150 => Some(Scancode::Lang7),
            151 => Some(Scancode::Lang8),
            152 => Some(Scancode::Lang9),
            153 => Some(Scancode::AltErase),
            154 => Some(Scancode::SysReq),
            155 => Some(Scancode::Cancel),
            156 => Some(Scancode::Clear),
            157 => Some(Scancode::Prior),
            158 => Some(Scancode::Return2),
            159 => Some(Scancode::Separator),
            160 => Some(Scancode::Out),
            161 => Some(Scancode::Oper),
            162 => Some(Scancode::ClearAgain),
            163 => Some(Scancode::CrSel),
            164 => Some(Scancode::ExSel),
            176 => Some(Scancode::Kp00),
            177 => Some(Scancode::Kp000),
            178 => Some(Scancode::ThousandsSeparator),
            179 => Some(Scancode::DecimalSeparator),
            180 => Some(Scancode::CurrencyUnit),
            181 => Some(Scancode::CurrencySubunit),
            182 => Some(Scancode::KpLeftParen),
            183 => Some(Scancode::KpRightParen),
            184 => Some(Scancode::KpLeftBrace),
            185 => Some(Scancode::KpRightBrace),
            186 => Some(Scancode::KpTab),
            187 => Some(Scancode::KpBackspace),
            188 => Some(Scancode::KpA),
            189 => Some(Scancode::KpB),
            190 => Some(Scancode::KpC),
            191 => Some(Scancode::KpD),
            192 => Some(Scancode::KpE),
            193 => Some(Scancode::KpF),
            194 => Some(Scancode::KpXor),
            195 => Some(Scancode::KpPower),
            196 => Some(Scancode::KpPercent),
            197 => Some(Scancode::KpLess),
            198 => Some(Scancode::KpGreater),
            199 => Some(Scancode::KpAmpersand),
            200 => Some(Scancode::KpDblAmpersand),
            201 => Some(Scancode::KpVerticalBar),
            202 => Some(Scancode::KpDblVerticalBar),
            203 => Some(Scancode::KpColon),
            204 => Some(Scancode::KpHash),
            205 => Some(Scancode::KpSpace),
            206 => Some(Scancode::KpAt),
            207 => Some(Scancode::KpExclam),
            208 => Some(Scancode::KpMemStore),
            209 => Some(Scancode::KpMemRecall),
            210 => Some(Scancode::KpMemClear),
            211 => Some(Scancode::KpMemAdd),
            212 => Some(Scancode::KpMemSubtract),
            213 => Some(Scancode::KpMemMultiply),
            214 => Some(Scancode::KpMemDivide),
            215 => Some(Scancode::KpPlusMinus),
            216 => Some(Scancode::KpClear),
            217 => Some(Scancode::KpClearEntry),
            218 => Some(Scancode::KpBinary),
            219 => Some(Scancode::KpOctal),
            220 => Some(Scancode::KpDecimal),
            221 => Some(Scancode::KpHexadecimal),
            224 => Some(Scancode::LCtrl),
            225 => Some(Scancode::LShift),
            226 => Some(Scancode::LAlt),
            227 => Some(Scancode::LGui),
            228 => Some(Scancode::RCtrl),
            229 => Some(Scancode::RShift),
            230 => Some(Scancode::RAlt),
            231 => Some(Scancode::RGui),
            257 => Some(Scancode::Mode),
            258 => Some(Scancode::Sleep),
            259 => Some(Scancode::Wake),
            260 => Some(Scancode::ChannelIncrement),
            261 => Some(Scancode::ChannelDecrement),
            262 => Some(Scancode::MediaPlay),
            263 => Some(Scancode::MediaPause),
            264 => Some(Scancode::MediaRecord),
            265 => Some(Scancode::MediaFastForward),
            266 => Some(Scancode::MediaRewind),
            267 => Some(Scancode::MediaNextTrack),
            268 => Some(Scancode::MediaPreviousTrack),
            269 => Some(Scancode::MediaStop),
            270 => Some(Scancode::MediaEject),
            271 => Some(Scancode::MediaPlayPause),
            272 => Some(Scancode::MediaSelect),
            273 => Some(Scancode::AcNew),
            274 => Some(Scancode::AcOpen),
            275 => Some(Scancode::AcClose),
            276 => Some(Scancode::AcExit),
            277 => Some(Scancode::AcSave),
            278 => Some(Scancode::AcPrint),
            279 => Some(Scancode::AcProperties),
            280 => Some(Scancode::AcSearch),
            281 => Some(Scancode::AcHome),
            282 => Some(Scancode::AcBack),
            283 => Some(Scancode::AcForward),
            284 => Some(Scancode::AcStop),
            285 => Some(Scancode::AcRefresh),
            286 => Some(Scancode::AcBookmarks),
            287 => Some(Scancode::SoftLeft),
            288 => Some(Scancode::SoftRight),
            289 => Some(Scancode::Call),
            290 => Some(Scancode::EndCall),
            400 => Some(Scancode::Reserved),
            _ => None,
        }
    }

    /// The scancode with the given signed number, if there is one. No
    /// scancode has a negative number.
    pub fn from_i32(code: i32) -> (key: Option<Scancode>)
        ensures
            match key {
                Some(k) => k.code_spec() == code,
                None => forall|k: Scancode| k.code_spec() != code,
            },
    {
        if code < 0 {
            None
        } else {
            Scancode::from_u32(code as u32)
        }
    }

    /// The scancode with the given number, or [`Scancode::Unknown`] where
    /// the number names no scancode.
    pub open spec fn from_code_spec(code: int) -> Scancode {
        if exists|k: Scancode| k.code_spec() == code {
            choose|k: Scancode| k.code_spec() == code
        } else {
            Scancode::Unknown
        }
    }

    /// The scancode with the given number, or [`Scancode::Unknown`] where
    /// the number names no scancode.
    pub fn from_code(code: i32) -> (key: Scancode)
        ensures
            key == Scancode::from_code_spec(code as int),
            key.code_spec() == code || (key == Scancode::Unknown && forall|k: Scancode|
                k.code_spec() != code),
    {
        match Scancode::from_i32(code) {
            Some(k) => {
                proof {
                    Scancode::lemma_code_injective(k, Scancode::from_code_spec(code as int));
                }
                k
            },
            None => Scancode::Unknown,
        }
    }

    /// Two scancodes with the same number are the same scancode.
    pub proof fn lemma_code_injective(a: Scancode, b: Scancode)
        requires
            a.code_spec() == b.code_spec(),
        ensures
            a == b,
    {
    }

    /// Reading a scancode's own number gives the scancode back.
    pub proof fn lemma_from_code_round_trip(k: Scancode)
        ensures
            Scancode::from_code_spec(k.code_spec() as int) == k,
    {
        Scancode::lemma_code_injective(k, Scancode::from_code_spec(k.code_spec() as int));
    }
}

} // verus!
