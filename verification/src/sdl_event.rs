//! The platform's event records as plain values, and their translation
//! into the portable event model.

use vstd::prelude::*;
use crate::event::{
    AppEvent, DeviceOperation, Event, InlineText, RawEvent, UserOperation, WindowEvent,
};
use crate::frect::FPoint;
use crate::keycode::KeyCode;
use crate::keymod::Keymod;
use crate::mouse::{Button, MouseWheelDirection, UnmarkedButton};
use crate::rect::Point;
use crate::scancode::Scancode;

verus! {

/// The user asked the application to quit.
pub const QUIT: u32 = 0x100;

/// The operating system is ending the application.
pub const TERMINATING: u32 = 0x101;

/// The operating system is short of memory.
pub const LOW_MEMORY: u32 = 0x102;

/// The application is about to go to the background.
pub const WILL_ENTER_BACKGROUND: u32 = 0x103;

/// The application went to the background.
pub const DID_ENTER_BACKGROUND: u32 = 0x104;

/// The application is about to come to the foreground.
pub const WILL_ENTER_FOREGROUND: u32 = 0x105;

/// The application came to the foreground.
pub const DID_ENTER_FOREGROUND: u32 = 0x106;

/// The user's locale changed.
pub const LOCALE_CHANGED: u32 = 0x107;

/// The system theme changed.
pub const SYSTEM_THEME_CHANGED: u32 = 0x108;

/// The first of the tags that report a change of one window.
pub const WINDOW_SHOWN: u32 = 0x202;

pub const WINDOW_HIDDEN: u32 = 0x203;

pub const WINDOW_EXPOSED: u32 = 0x204;

pub const WINDOW_MOVED: u32 = 0x205;

pub const WINDOW_RESIZED: u32 = 0x206;

pub const WINDOW_PIXEL_SIZE_CHANGED: u32 = 0x207;

pub const WINDOW_METAL_VIEW_RESIZED: u32 = 0x208;

pub const WINDOW_MINIMIZED: u32 = 0x209;

pub const WINDOW_MAXIMIZED: u32 = 0x20a;

pub const WINDOW_RESTORED: u32 = 0x20b;

pub const WINDOW_MOUSE_ENTER: u32 = 0x20c;

pub const WINDOW_MOUSE_LEAVE: u32 = 0x20d;

pub const WINDOW_FOCUS_GAINED: u32 = 0x20e;

pub const WINDOW_FOCUS_LOST: u32 = 0x20f;

/// The user asked to close a window.
pub const WINDOW_CLOSE_REQUESTED: u32 = 0x210;

pub const WINDOW_HIT_TEST: u32 = 0x211;

pub const WINDOW_ICCPROF_CHANGED: u32 = 0x212;

pub const WINDOW_DISPLAY_CHANGED: u32 = 0x213;

pub const WINDOW_DISPLAY_SCALE_CHANGED: u32 = 0x214;

pub const WINDOW_SAFE_AREA_CHANGED: u32 = 0x215;

pub const WINDOW_OCCLUDED: u32 = 0x216;

pub const WINDOW_ENTER_FULLSCREEN: u32 = 0x217;

pub const WINDOW_LEAVE_FULLSCREEN: u32 = 0x218;

pub const WINDOW_DESTROYED: u32 = 0x219;

/// The last of the tags that report a change of one window.
pub const WINDOW_HDR_STATE_CHANGED: u32 = 0x21a;

pub const KEY_DOWN: u32 = 0x300;

pub const KEY_UP: u32 = 0x301;

pub const TEXT_EDITING: u32 = 0x302;

pub const TEXT_INPUT: u32 = 0x303;

pub const KEYMAP_CHANGED: u32 = 0x304;

pub const KEYBOARD_ADDED: u32 = 0x305;

pub const KEYBOARD_REMOVED: u32 = 0x306;

pub const MOUSE_MOTION: u32 = 0x400;

pub const MOUSE_BUTTON_DOWN: u32 = 0x401;

pub const MOUSE_BUTTON_UP: u32 = 0x402;

pub const MOUSE_WHEEL: u32 = 0x403;

pub const MOUSE_ADDED: u32 = 0x404;

pub const MOUSE_REMOVED: u32 = 0x405;

/// Which fields a native record carries besides its tag and its time.
#[derive(Clone, Copy, Debug, PartialEq, Eq, Structural)]
pub enum PayloadKind {
    /// Nothing more.
    Common,
    /// A mouse was attached or detached.
    MouseDevice,
    /// A keyboard was attached or detached.
    KeyboardDevice,
    /// A key went down or up.
    Key,
    /// Text under composition changed.
    TextEditing,
    /// Text was entered.
    TextInput,
    /// The mouse moved.
    Motion,
    /// A mouse button went down or up.
    Button,
    /// A wheel turned.
    Wheel,
    /// A window changed.
    Window,
}

/// What a native record carries besides its tag and its time, as plain
/// values. Fractional numbers are carried as bit patterns, text as the
/// bytes before its terminator, or `None` where the platform gave no
/// text at all.
#[derive(Clone, Copy, Debug)]
pub enum NativePayload<'a> {
    Common,
    Device { which: u32 },
    Key {
        window_id: u32,
        which: u32,
        scancode: i32,
        key: u32,
        modifiers: u16,
        raw: u16,
        down: bool,
        repeat: bool,
    },
    TextEditing { window_id: u32, text: Option<&'a [u8]>, start: i32, length: i32 },
    TextInput { window_id: u32, text: Option<&'a [u8]> },
    Motion { window_id: u32, which: u32, state: u32, x: u32, y: u32, xrel: u32, yrel: u32 },
    Button { window_id: u32, which: u32, button: u8, down: bool, clicks: u8, x: u32, y: u32 },
    Wheel {
        window_id: u32,
        which: u32,
        x: u32,
        y: u32,
        direction: i32,
        mouse_x: u32,
        mouse_y: u32,
        integer_x: i32,
        integer_y: i32,
    },
    Window { window_id: u32, data1: i32, data2: i32 },
}

/// One record of the platform's event queue, as plain values.
#[derive(Clone, Copy, Debug)]
pub struct NativeEvent<'a> {
    /// The tag that says what kind of event this is.
    pub event_type: u32,
    /// Nanoseconds on the platform's own clock.
    pub timestamp: u64,
    pub payload: NativePayload<'a>,
}

/// Whether `tag` reports a change of one window (a request to close it
/// is reported apart).
pub open spec fn is_window_tag(tag: u32) -> bool {
    WINDOW_SHOWN <= tag <= WINDOW_HDR_STATE_CHANGED && tag != WINDOW_CLOSE_REQUESTED
}

/// Whether the event model has a variant for `tag`.
pub open spec fn is_mapped(tag: u32) -> bool {
    ||| QUIT <= tag <= SYSTEM_THEME_CHANGED
    ||| WINDOW_SHOWN <= tag <= WINDOW_HDR_STATE_CHANGED
    ||| KEY_DOWN <= tag <= KEYBOARD_REMOVED
    ||| MOUSE_MOTION <= tag <= MOUSE_REMOVED
}

/// The fields that a record with the tag `tag` carries.
pub open spec fn payload_kind_spec(tag: u32) -> PayloadKind {
    if tag == MOUSE_ADDED || tag == MOUSE_REMOVED {
        PayloadKind::MouseDevice
    } else if tag == KEYBOARD_ADDED || tag == KEYBOARD_REMOVED {
        PayloadKind::KeyboardDevice
    } else if tag == KEY_DOWN || tag == KEY_UP {
        PayloadKind::Key
    } else if tag == TEXT_EDITING {
        PayloadKind::TextEditing
    } else if tag == TEXT_INPUT {
        PayloadKind::TextInput
    } else if tag == MOUSE_MOTION {
        PayloadKind::Motion
    } else if tag == MOUSE_BUTTON_DOWN || tag == MOUSE_BUTTON_UP {
        PayloadKind::Button
    } else if tag == MOUSE_WHEEL {
        PayloadKind::Wheel
    } else if WINDOW_SHOWN <= tag <= WINDOW_HDR_STATE_CHANGED {
        PayloadKind::Window
    } else {
        PayloadKind::Common
    }
}

/// The fields that a record with the tag `tag` carries: what to read
/// from the platform's record before it is translated.
pub fn payload_kind(tag: u32) -> (kind: PayloadKind)
    ensures
        kind == payload_kind_spec(tag),
{
    if tag == MOUSE_ADDED || tag == MOUSE_REMOVED {
        PayloadKind::MouseDevice
    } else if tag == KEYBOARD_ADDED || tag == KEYBOARD_REMOVED {
        PayloadKind::KeyboardDevice
    } else if tag == KEY_DOWN || tag == KEY_UP {
        PayloadKind::Key
    } else if tag == TEXT_EDITING {
        PayloadKind::TextEditing
    } else if tag == TEXT_INPUT {
        PayloadKind::TextInput
    } else if tag == MOUSE_MOTION {
        PayloadKind::Motion
    } else if tag == MOUSE_BUTTON_DOWN || tag == MOUSE_BUTTON_UP {
        PayloadKind::Button
    } else if tag == MOUSE_WHEEL {
        PayloadKind::Wheel
    } else if WINDOW_SHOWN <= tag && tag <= WINDOW_HDR_STATE_CHANGED {
        PayloadKind::Window
    } else {
        PayloadKind::Common
    }
}

impl<'a> NativePayload<'a> {
    /// Which fields this payload carries. A device payload is the same
    /// for a mouse and for a keyboard; it counts as a mouse's here.
    pub open spec fn kind_spec(self) -> PayloadKind {
        match self {
            NativePayload::Common => PayloadKind::Common,
            NativePayload::Device { .. } => PayloadKind::MouseDevice,
            NativePayload::Key { .. } => PayloadKind::Key,
            NativePayload::TextEditing { .. } => PayloadKind::TextEditing,
            NativePayload::TextInput { .. } => PayloadKind::TextInput,
            NativePayload::Motion { .. } => PayloadKind::Motion,
            NativePayload::Button { .. } => PayloadKind::Button,
            NativePayload::Wheel { .. } => PayloadKind::Wheel,
            NativePayload::Window { .. } => PayloadKind::Window,
        }
    }
}

impl<'a> NativeEvent<'a> {
    /// Whether the payload is the one that the tag calls for.
    pub open spec fn matches_tag(self) -> bool {
        let wanted = payload_kind_spec(self.event_type);
        let wanted = if wanted == PayloadKind::KeyboardDevice {
            PayloadKind::MouseDevice
        } else {
            wanted
        };
        self.payload.kind_spec() == wanted
    }
}

/// The text that the bytes `text` stand for: the empty text where the
/// platform gave none.
pub open spec fn inline_text_spec(text: Option<&[u8]>) -> InlineText {
    match text {
        Some(bytes) => InlineText::from_bytes_spec(bytes@),
        None => InlineText::empty_spec(),
    }
}

/// The text that the bytes `text` stand for: the empty text where the
/// platform gave none, else as many leading bytes as fit.
pub fn inline_text_from_bytes(text: Option<&[u8]>) -> (inline: InlineText)
    ensures
        inline == inline_text_spec(text),
        inline.inv(),
{
    match text {
        Some(bytes) => InlineText::from_bytes(bytes),
        None => InlineText::empty(),
    }
}

/// The set that holds the button with the index `button`, or the empty
/// set where no button has that index.
pub open spec fn button_from_index_spec(button: u8) -> Button {
    Button::from_bits_truncate_spec(
        if button == 1 {
            Button::LEFT
        } else if button == 2 {
            Button::MIDDLE
        } else if button == 3 {
            Button::RIGHT
        } else if button == 4 {
            Button::SIDE1
        } else if button == 5 {
            Button::SIDE2
        } else {
            0
        },
    )
}

/// The set that holds the button with the index `button`, or the empty
/// set where no button has that index.
pub fn button_from_index(button: u8) -> (buttons: Button)
    ensures
        buttons == button_from_index_spec(button),
        1 <= button <= 5 ==> buttons@ == 1u32 << ((button - 1) as u32),
        !(1 <= button <= 5) ==> buttons@ == 0,
{
    assert(1u32 << 0u32 == 0x01u32) by (bit_vector);
    assert(1u32 << 1u32 == 0x02u32) by (bit_vector);
    assert(1u32 << 2u32 == 0x04u32) by (bit_vector);
    assert(1u32 << 3u32 == 0x08u32) by (bit_vector);
    assert(1u32 << 4u32 == 0x10u32) by (bit_vector);
    match button {
        1 => Button::only(UnmarkedButton::Left),
        2 => Button::only(UnmarkedButton::Middle),
        3 => Button::only(UnmarkedButton::Right),
        4 => Button::only(UnmarkedButton::Side1),
        5 => Button::only(UnmarkedButton::Side2),
        _ => Button::empty(),
    }
}

/// The application event that `tag` reports, if it reports one.
pub open spec fn app_event_spec(tag: u32) -> Option<AppEvent> {
    if tag == TERMINATING {
        Some(AppEvent::Terminating)
    } else if tag == LOW_MEMORY {
        Some(AppEvent::LowMemory)
    } else if tag == WILL_ENTER_BACKGROUND {
        Some(AppEvent::WillEnterBackground)
    } else if tag == DID_ENTER_BACKGROUND {
        Some(AppEvent::DidEnterBackground)
    } else if tag == WILL_ENTER_FOREGROUND {
        Some(AppEvent::WillEnterForeground)
    } else if tag == DID_ENTER_FOREGROUND {
        Some(AppEvent::DidEnterForeground)
    } else if tag == LOCALE_CHANGED {
        Some(AppEvent::LocaleChanged)
    } else if tag == SYSTEM_THEME_CHANGED {
        Some(AppEvent::SystemThemeChanged)
    } else {
        None
    }
}

/// The application event that `tag` reports, if it reports one.
pub fn app_event_of(tag: u32) -> (event: Option<AppEvent>)
    ensures
        event == app_event_spec(tag),
        event is Some <==> TERMINATING <= tag <= SYSTEM_THEME_CHANGED,
{
    match tag {
        0x101 => Some(AppEvent::Terminating),
        0x102 => Some(AppEvent::LowMemory),
        0x103 => Some(AppEvent::WillEnterBackground),
        0x104 => Some(AppEvent::DidEnterBackground),
        0x105 => Some(AppEvent::WillEnterForeground),
        0x106 => Some(AppEvent::DidEnterForeground),
        0x107 => Some(AppEvent::LocaleChanged),
        0x108 => Some(AppEvent::SystemThemeChanged),
        _ => None,
    }
}

/// A signed 32-bit number read as an unsigned one with the same bits.
pub open spec fn reinterpret_spec(value: i32) -> u32 {
    if value >= 0 {
        value as u32
    } else {
        (value + 0x1_0000_0000) as u32
    }
}

/// A signed 32-bit number read as an unsigned one with the same bits.
pub fn reinterpret(value: i32) -> (bits: u32)
    ensures
        bits == reinterpret_spec(value),
{
    if value >= 0 {
        value as u32
    } else {
        let wide: i64 = value as i64 + 0x1_0000_0000i64;
        wide as u32
    }
}

/// The window event that `tag` reports with the two numbers `data1` and
/// `data2`, if it reports one.
pub open spec fn window_event_spec(tag: u32, data1: i32, data2: i32) -> Option<WindowEvent> {
    if tag == WINDOW_SHOWN {
        Some(WindowEvent::Shown)
    } else if tag == WINDOW_HIDDEN {
        Some(WindowEvent::Hidden)
    } else if tag == WINDOW_EXPOSED {
        Some(WindowEvent::Exposed { is_live_resize: data1 != 0 })
    } else if tag == WINDOW_MOVED {
        Some(WindowEvent::Moved { position: Point { x: data1, y: data2 } })
    } else if tag == WINDOW_RESIZED {
        Some(WindowEvent::Resized { size: Point { x: data1, y: data2 } })
    } else if tag == WINDOW_PIXEL_SIZE_CHANGED {
        Some(WindowEvent::PixelSizeChanged { size: Point { x: data1, y: data2 } })
    } else if tag == WINDOW_METAL_VIEW_RESIZED {
        Some(WindowEvent::MetalViewResized)
    } else if tag == WINDOW_MINIMIZED {
        Some(WindowEvent::Minimized)
    } else if tag == WINDOW_MAXIMIZED {
        Some(WindowEvent::Maximized)
    } else if tag == WINDOW_RESTORED {
        Some(WindowEvent::Restored)
    } else if tag == WINDOW_MOUSE_ENTER {
        Some(WindowEvent::MouseEnter)
    } else if tag == WINDOW_MOUSE_LEAVE {
        Some(WindowEvent::MouseLeave)
    } else if tag == WINDOW_FOCUS_GAINED {
        Some(WindowEvent::FocusGained)
    } else if tag == WINDOW_FOCUS_LOST {
        Some(WindowEvent::FocusLost)
    } else if tag == WINDOW_HIT_TEST {
        Some(WindowEvent::HitTest)
    } else if tag == WINDOW_ICCPROF_CHANGED {
        Some(WindowEvent::IccProfileChanged)
    } else if tag == WINDOW_DISPLAY_CHANGED {
        Some(WindowEvent::DisplayChanged { display_id: reinterpret_spec(data1) })
    } else if tag == WINDOW_DISPLAY_SCALE_CHANGED {
        Some(WindowEvent::DisplayScaleChanged)
    } else if tag == WINDOW_SAFE_AREA_CHANGED {
        Some(WindowEvent::SafeAreaChanged)
    } else if tag == WINDOW_OCCLUDED {
        Some(WindowEvent::Occluded)
    } else if tag == WINDOW_ENTER_FULLSCREEN {
        Some(WindowEvent::EnterFullscreen)
    } else if tag == WINDOW_LEAVE_FULLSCREEN {
        Some(WindowEvent::LeaveFullscreen)
    } else if tag == WINDOW_DESTROYED {
        Some(WindowEvent::Destroyed)
    } else if tag == WINDOW_HDR_STATE_CHANGED {
        Some(WindowEvent::HdrStateChanged)
    } else {
        None
    }
}

/// The window event that `tag` reports with the two numbers `data1` and
/// `data2`, if it reports one.
pub fn window_event_of(tag: u32, data1: i32, data2: i32) -> (event: Option<WindowEvent>)
    ensures
        event == window_event_spec(tag, data1, data2),
        event is Some <==> is_window_tag(tag),
{
    match tag {
        0x202 => Some(WindowEvent::Shown),
        0x203 => Some(WindowEvent::Hidden),
        0x204 => Some(WindowEvent::Exposed { is_live_resize: data1 != 0 }),
        0x205 => Some(WindowEvent::Moved { position: Point::new(data1, data2) }),
        0x206 => Some(WindowEvent::Resized { size: Point::new(data1, data2) }),
        0x207 => Some(WindowEvent::PixelSizeChanged { size: Point::new(data1, data2) }),
        0x208 => Some(WindowEvent::MetalViewResized),
        0x209 => Some(WindowEvent::Minimized),
        0x20a => Some(WindowEvent::Maximized),
        0x20b => Some(WindowEvent::Restored),
        0x20c => Some(WindowEvent::MouseEnter),
        0x20d => Some(WindowEvent::MouseLeave),
        0x20e => Some(WindowEvent::FocusGained),
        0x20f => Some(WindowEvent::FocusLost),
        0x211 => Some(WindowEvent::HitTest),
        0x212 => Some(WindowEvent::IccProfileChanged),
        0x213 => Some(WindowEvent::DisplayChanged { display_id: reinterpret(data1) }),
        0x214 => Some(WindowEvent::DisplayScaleChanged),
        0x215 => Some(WindowEvent::SafeAreaChanged),
        0x216 => Some(WindowEvent::Occluded),
        0x217 => Some(WindowEvent::EnterFullscreen),
        0x218 => Some(WindowEvent::LeaveFullscreen),
        0x219 => Some(WindowEvent::Destroyed),
        0x21a => Some(WindowEvent::HdrStateChanged),
        _ => None,
    }
}

/// The event that stands for a record of an unknown kind.
pub open spec fn unknown_spec(tag: u32) -> RawEvent {
    RawEvent::Unknown { type_id: tag as u64 }
}

/// What a record that carries nothing but its tag reports.
pub open spec fn translate_common_spec(tag: u32) -> RawEvent {
    if tag == QUIT {
        RawEvent::Quit
    } else if tag == KEYMAP_CHANGED {
        RawEvent::KeymapChanged
    } else {
        match app_event_spec(tag) {
            Some(event) => RawEvent::App { event },
            None => unknown_spec(tag),
        }
    }
}

/// What the record `native` reports.
///
/// A key or scan code that names no key is read as the unknown key, a
/// wheel direction that names none as normal, a button index that names
/// no button as no button. A tag that the model does not know, and a
/// payload that is not the one its tag calls for, give
/// [`RawEvent::Unknown`] with the tag.
pub open spec fn translate_raw_spec(native: NativeEvent) -> RawEvent {
    let tag = native.event_type;
    match native.payload {
        NativePayload::Common => translate_common_spec(tag),
        NativePayload::Device { which } => {
            if tag == MOUSE_ADDED {
                RawEvent::MouseDevice { mouse_id: which as u64, operation: DeviceOperation::Added }
            } else if tag == MOUSE_REMOVED {
                RawEvent::MouseDevice {
                    mouse_id: which as u64,
                    operation: DeviceOperation::Removed,
                }
            } else if tag == KEYBOARD_ADDED {
                RawEvent::KeyboardDevice {
                    keyboard_id: which as u64,
                    operation: DeviceOperation::Added,
                }
            } else if tag == KEYBOARD_REMOVED {
                RawEvent::KeyboardDevice {
                    keyboard_id: which as u64,
                    operation: DeviceOperation::Removed,
                }
            } else {
                unknown_spec(tag)
            }
        },
        NativePayload::Key { window_id, which, scancode, key, modifiers, raw, down, repeat } => {
            if tag == KEY_DOWN || tag == KEY_UP {
                RawEvent::Keyboard {
                    window_id: window_id as u64,
                    keyboard_id: which as u64,
                    scan_code: Scancode::from_code_spec(scancode as int),
                    key_code: KeyCode::from_code_spec(key),
                    keymod: Keymod::from_bits_truncate_spec(modifiers),
                    raw_scancode: raw,
                    is_down: down,
                    is_repeat: repeat,
                    user_operation: UserOperation::of_spec(down),
                }
            } else {
                unknown_spec(tag)
            }
        },
        NativePayload::TextEditing { window_id, text, start, length } => {
            if tag == TEXT_EDITING {
                RawEvent::TextEditing {
                    window_id: window_id as u64,
                    text: inline_text_spec(text),
                    start,
                    length,
                }
            } else {
                unknown_spec(tag)
            }
        },
        NativePayload::TextInput { window_id, text } => {
            if tag == TEXT_INPUT {
                RawEvent::TextInput { window_id: window_id as u64, text: inline_text_spec(text) }
            } else {
                unknown_spec(tag)
            }
        },
        NativePayload::Motion { window_id, which, state, x, y, xrel, yrel } => {
            if tag == MOUSE_MOTION {
                RawEvent::MouseMotion {
                    window_id: window_id as u64,
                    mouse_id: which as u64,
                    state: Button::from_bits_truncate_spec(state),
                    position: FPoint { x_bits: x, y_bits: y },
                    relative: FPoint { x_bits: xrel, y_bits: yrel },
                }
            } else {
                unknown_spec(tag)
            }
        },
        NativePayload::Button { window_id, which, button, down, clicks, x, y } => {
            if tag == MOUSE_BUTTON_DOWN || tag == MOUSE_BUTTON_UP {
                RawEvent::MouseButton {
                    window_id: window_id as u64,
                    mouse_id: which as u64,
                    button: button_from_index_spec(button),
                    down,
                    clicks,
                    position: FPoint { x_bits: x, y_bits: y },
                    user_operation: UserOperation::of_spec(down),
                }
            } else {
                unknown_spec(tag)
            }
        },
        NativePayload::Wheel {
            window_id,
            which,
            x,
            y,
            direction,
            mouse_x,
            mouse_y,
            integer_x,
            integer_y,
        } => {
            if tag == MOUSE_WHEEL {
                RawEvent::MouseWheel {
                    window_id: window_id as u64,
                    mouse_id: which as u64,
                    scroll: FPoint { x_bits: x, y_bits: y },
                    direction: MouseWheelDirection::from_code_spec(direction),
                    position: FPoint { x_bits: mouse_x, y_bits: mouse_y },
                    accumulated_scroll: Point { x: integer_x, y: integer_y },
                }
            } else {
                unknown_spec(tag)
            }
        },
        NativePayload::Window { window_id, data1, data2 } => {
            if tag == WINDOW_CLOSE_REQUESTED {
                RawEvent::WindowClose { id: window_id as u64 }
            } else {
                match window_event_spec(tag, data1, data2) {
                    Some(event) => RawEvent::Window { window_id: window_id as u64, event },
                    None => unknown_spec(tag),
                }
            }
        },
    }
}

/// The event that the record `native` stands for.
pub open spec fn translate_spec(native: NativeEvent) -> Event {
    Event { ns_timestamp: native.timestamp, raw: translate_raw_spec(native) }
}

/// Translates one record of the platform's event queue.
///
/// The translation is total: every record gives exactly one event. The
/// time is the record's own. A tag that the model does not know gives
/// [`RawEvent::Unknown`] with that tag.
pub fn translate_event(native: NativeEvent) -> (event: Event)
    ensures
        event == translate_spec(native),
        event.ns_timestamp == native.timestamp,
        !is_mapped(native.event_type) ==> event.raw == (RawEvent::Unknown {
            type_id: native.event_type as u64,
        }),
{
    let tag = native.event_type;
    let unknown = RawEvent::Unknown { type_id: tag as u64 };
    let raw = match native.payload {
        NativePayload::Common => {
            if tag == QUIT {
                RawEvent::Quit
            } else if tag == KEYMAP_CHANGED {
                RawEvent::KeymapChanged
            } else {
                match app_event_of(tag) {
                    Some(event) => RawEvent::App { event },
                    None => unknown,
                }
            }
        },
        NativePayload::Device { which } => {
            match tag {
                0x404 => RawEvent::MouseDevice {
                    mouse_id: which as u64,
                    operation: DeviceOperation::Added,
                },
                0x405 => RawEvent::MouseDevice {
                    mouse_id: which as u64,
                    operation: DeviceOperation::Removed,
                },
                0x305 => RawEvent::KeyboardDevice {
                    keyboard_id: which as u64,
                    operation: DeviceOperation::Added,
                },
                0x306 => RawEvent::KeyboardDevice {
                    keyboard_id: which as u64,
                    operation: DeviceOperation::Removed,
                },
                _ => unknown,
            }
        },
        NativePayload::Key { window_id, which, scancode, key, modifiers, raw, down, repeat } => {
            if tag == KEY_DOWN || tag == KEY_UP {
                RawEvent::Keyboard {
                    window_id: window_id as u64,
                    keyboard_id: which as u64,
                    scan_code: Scancode::from_code(scancode),
                    key_code: KeyCode::from_code(key),
                    keymod: Keymod::from_bits_truncate(modifiers),
                    raw_scancode: raw,
                    is_down: down,
                    is_repeat: repeat,
                    user_operation: UserOperation::of(down),
                }
            } else {
                unknown
            }
        },
        NativePayload::TextEditing { window_id, text, start, length } => {
            if tag == TEXT_EDITING {
                RawEvent::TextEditing {
                    window_id: window_id as u64,
                    text: inline_text_from_bytes(text),
                    start,
                    length,
                }
            } else {
                unknown
            }
        },
        NativePayload::TextInput { window_id, text } => {
            if tag == TEXT_INPUT {
                RawEvent::TextInput {
                    window_id: window_id as u64,
                    text: inline_text_from_bytes(text),
                }
            } else {
                unknown
            }
        },
        NativePayload::Motion { window_id, which, state, x, y, xrel, yrel } => {
            if tag == MOUSE_MOTION {
                RawEvent::MouseMotion {
                    window_id: window_id as u64,
                    mouse_id: which as u64,
                    state: Button::from_bits_truncate(state),
                    position: FPoint::from_bits(x, y),
                    relative: FPoint::from_bits(xrel, yrel),
                }
            } else {
                unknown
            }
        },
        NativePayload::Button { window_id, which, button, down, clicks, x, y } => {
            if tag == MOUSE_BUTTON_DOWN || tag == MOUSE_BUTTON_UP {
                RawEvent::MouseButton {
                    window_id: window_id as u64,
                    mouse_id: which as u64,
                    button: button_from_index(button),
                    down,
                    clicks,
                    position: FPoint::from_bits(x, y),
                    user_operation: UserOperation::of(down),
                }
            } else {
                unknown
            }
        },
        NativePayload::Wheel {
            window_id,
            which,
            x,
            y,
            direction,
            mouse_x,
            mouse_y,
            integer_x,
            integer_y,
        } => {
            if tag == MOUSE_WHEEL {
                RawEvent::MouseWheel {
                    window_id: window_id as u64,
                    mouse_id: which as u64,
                    scroll: FPoint::from_bits(x, y),
                    direction: MouseWheelDirection::from_code(direction),
                    position: FPoint::from_bits(mouse_x, mouse_y),
                    accumulated_scroll: Point::new(integer_x, integer_y),
                }
            } else {
                unknown
            }
        },
        NativePayload::Window { window_id, data1, data2 } => {
            if tag == WINDOW_CLOSE_REQUESTED {
                RawEvent::WindowClose { id: window_id as u64 }
            } else {
                match window_event_of(tag, data1, data2) {
                    Some(event) => RawEvent::Window { window_id: window_id as u64, event },
                    None => unknown,
                }
            }
        },
    };
    Event { ns_timestamp: native.timestamp, raw }
}

/// Every record stands for exactly one event, which carries the record's
/// own time; where the model has no variant for the record's tag, the
/// event is [`RawEvent::Unknown`] and carries the tag.
pub proof fn lemma_translation_total(native: NativeEvent)
    ensures
        translate_spec(native).ns_timestamp == native.timestamp,
        !is_mapped(native.event_type) ==> translate_spec(native).raw == (RawEvent::Unknown {
            type_id: native.event_type as u64,
        }),
        translate_spec(native).raw is Unknown ==> translate_spec(native).raw
            == (RawEvent::Unknown { type_id: native.event_type as u64 }),
        native.matches_tag() && is_mapped(native.event_type) ==> !(translate_spec(native).raw
            is Unknown),
{
}

} // verus!
