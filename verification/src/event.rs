//! The portable event model: what can happen to an application, its
//! windows and its input devices.

use vstd::prelude::*;
use crate::frect::FPoint;
use crate::id::{KeyboardId, MouseId, WindowId};
use crate::keycode::KeyCode;
use crate::keymod::Keymod;
use crate::mouse::{Button, MouseWheelDirection};
use crate::rect::Point;
use crate::scancode::Scancode;

verus! {

/// The most bytes an [`InlineText`] can hold.
pub const INLINE_TEXT_MAX: usize = 64;

/// The first `limit` items of `s`, or all of `s` where it has fewer.
pub open spec fn leading<T>(s: Seq<T>, limit: nat) -> Seq<T> {
    if s.len() <= limit {
        s
    } else {
        s.subrange(0, limit as int)
    }
}

/// A short text held in place, without allocation.
///
/// It holds at most [`INLINE_TEXT_MAX`] bytes; a longer source is cut
/// after that many.
#[derive(Clone, Copy, Debug, PartialEq, Eq)]
pub struct InlineText {
    len: u8,
    data: [u8; 64],
}

impl InlineText {
    /// What holds of every text: the length is within the capacity and
    /// the unused bytes are zero.
    #[verifier::type_invariant]
    pub closed spec fn inv(self) -> bool {
        &&& self.len <= 64
        &&& forall|i: int| self.len <= i < 64 ==> self.data@[i] == 0
    }

    /// The bytes of the text.
    pub closed spec fn view(self) -> Seq<u8> {
        self.data@.subrange(0, self.len as int)
    }

    /// The array that holds the first `n` bytes of `bytes` and zeros
    /// after them.
    pub closed spec fn padded(bytes: Seq<u8>, n: nat) -> [u8; 64]
        decreases n,
    {
        if n == 0 {
            vstd::array::spec_array_fill_for_copy_type::<u8, 64>(0u8)
        } else {
            vstd::array::spec_array_update(
                InlineText::padded(bytes, (n - 1) as nat),
                n - 1,
                bytes[n - 1],
            )
        }
    }

    proof fn lemma_padded(bytes: Seq<u8>, n: nat)
        requires
            n <= 64,
            n <= bytes.len(),
        ensures
            forall|j: int| 0 <= j < n ==> InlineText::padded(bytes, n)@[j] == bytes[j],
            forall|j: int| n <= j < 64 ==> InlineText::padded(bytes, n)@[j] == 0,
        decreases n,
    {
        broadcast use vstd::array::group_array_axioms;

        if n > 0 {
            InlineText::lemma_padded(bytes, (n - 1) as nat);
            let before = InlineText::padded(bytes, (n - 1) as nat);
            let after = vstd::array::spec_array_update(before, n - 1, bytes[n - 1]);
            assert(after@ == before@.update(n - 1, bytes[n - 1]));
            assert(InlineText::padded(bytes, n) == after);
        } else {
            let zeros = vstd::array::spec_array_fill_for_copy_type::<u8, 64>(0u8);
            assert(InlineText::padded(bytes, 0) == zeros);
            assert(forall|j: int| 0 <= j < 64 ==> zeros@[j] == 0);
        }
    }

    /// The text made of the leading bytes of `bytes`, as many as fit, as
    /// a value.
    pub closed spec fn from_bytes_spec(bytes: Seq<u8>) -> InlineText {
        let len = leading(bytes, INLINE_TEXT_MAX as nat).len();
        InlineText { len: len as u8, data: InlineText::padded(bytes, len) }
    }

    /// The text without bytes, as a value.
    pub open spec fn empty_spec() -> InlineText {
        InlineText::from_bytes_spec(Seq::<u8>::empty())
    }

    /// The text without bytes.
    pub fn empty() -> (text: InlineText)
        ensures
            text == InlineText::empty_spec(),
            text@ == Seq::<u8>::empty(),
            text.inv(),
    {
        let text = InlineText { len: 0, data: [0u8;64] };
        proof {
            InlineText::lemma_padded(Seq::<u8>::empty(), 0);
            assert(text.data =~= InlineText::padded(Seq::<u8>::empty(), 0));
            assert(text@ =~= Seq::<u8>::empty());
        }
        text
    }

    /// The text made of the leading bytes of `bytes`, as many as fit.
    pub fn from_bytes(bytes: &[u8]) -> (text: InlineText)
        ensures
            text == InlineText::from_bytes_spec(bytes@),
            text@ == leading(bytes@, INLINE_TEXT_MAX as nat),
            text@.len() == if bytes@.len() <= 64 { bytes@.len() } else { 64 },
            text.inv(),
    {
        let mut data: [u8; 64] = [0u8;64];
        let len: usize = if bytes.len() < INLINE_TEXT_MAX {
            bytes.len()
        } else {
            INLINE_TEXT_MAX
        };
        let mut i: usize = 0;
        while i < len
            invariant
                i <= len <= 64,
                len <= bytes@.len(),
                forall|j: int| 0 <= j < i ==> data@[j] == bytes@[j],
                forall|j: int| i <= j < 64 ==> data@[j] == 0,
            decreases len - i,
        {
            data[i] = bytes[i];
            i += 1;
        }
        let text = InlineText { len: len as u8, data };
        proof {
            InlineText::lemma_padded(bytes@, len as nat);
            assert(data =~= InlineText::padded(bytes@, len as nat));
            assert(text@ =~= leading(bytes@, INLINE_TEXT_MAX as nat));
        }
        text
    }

    /// What [`InlineText::from_bytes_spec`] holds: the leading bytes, as
    /// many as fit, and nothing else.
    pub proof fn lemma_from_bytes_spec(bytes: Seq<u8>)
        ensures
            InlineText::from_bytes_spec(bytes).inv(),
            InlineText::from_bytes_spec(bytes)@ == leading(bytes, INLINE_TEXT_MAX as nat),
    {
        let len = leading(bytes, INLINE_TEXT_MAX as nat).len();
        InlineText::lemma_padded(bytes, len);
        assert(InlineText::from_bytes_spec(bytes)@ =~= leading(bytes, INLINE_TEXT_MAX as nat));
    }

    /// The bytes of the text.
    pub fn as_bytes(&self) -> (bytes: &[u8])
        ensures
            bytes@ == self@,
    {
        proof {
            use_type_invariant(self);
        }
        vstd::slice::slice_subrange(self.data.as_slice(), 0, self.len as usize)
    }

    /// The number of bytes of the text.
    pub fn len(&self) -> (len: usize)
        ensures
            len == self@.len(),
            len <= INLINE_TEXT_MAX,
    {
        proof {
            use_type_invariant(self);
        }
        self.len as usize
    }

    /// Whether the text has no bytes.
    pub fn is_empty(&self) -> (b: bool)
        ensures
            b == (self@.len() == 0),
    {
        proof {
            use_type_invariant(self);
        }
        self.len == 0
    }

    /// Two texts with the same bytes are the same value: nothing but the
    /// bytes tells them apart.
    pub proof fn lemma_same_bytes_same_text(a: InlineText, b: InlineText)
        requires
            a.inv(),
            b.inv(),
            a@ == b@,
        ensures
            a == b,
    {
        assert(a@.len() == a.len);
        assert(b@.len() == b.len);
        assert forall|i: int| 0 <= i < 64 implies a.data[i] == b.data[i] by {
            if i < a.len {
                assert(a@[i] == a.data@[i]);
                assert(b@[i] == b.data@[i]);
            }
        }
        assert(a.data =~= b.data);
    }

    /// A text built from `bytes` has the lesser of their number and the
    /// capacity as its length, holds exactly that many leading bytes, and
    /// is the empty text where there are none.
    pub proof fn lemma_text_of_bytes(bytes: Seq<u8>)
        ensures
            InlineText::from_bytes_spec(bytes)@.len() == if bytes.len() <= INLINE_TEXT_MAX {
                bytes.len()
            } else {
                INLINE_TEXT_MAX as nat
            },
            forall|i: int|
                0 <= i < InlineText::from_bytes_spec(bytes)@.len() ==> InlineText::from_bytes_spec(
                    bytes,
                )@[i] == bytes[i],
            bytes.len() == 0 ==> InlineText::from_bytes_spec(bytes) == InlineText::empty_spec(),
    {
        InlineText::lemma_from_bytes_spec(bytes);
        if bytes.len() == 0 {
            assert(bytes =~= Seq::<u8>::empty());
        }
    }
}

impl Default for InlineText {
    fn default() -> (text: InlineText)
        ensures
            text == InlineText::empty_spec(),
    {
        InlineText::empty()
    }
}

/// What happened to an input device.
#[derive(Clone, Copy, Debug, PartialEq, Eq, Structural)]
pub enum DeviceOperation {
    /// The device (a mouse or a keyboard) was attached.
    Added,
    /// The device (a mouse or a keyboard) was detached.
    Removed,
}

/// Which way a key or a button went.
#[derive(Clone, Copy, Debug, PartialEq, Eq, Structural)]
pub enum UserOperation {
    /// Released.
    Up,
    /// Pressed.
    Down,
}

impl UserOperation {
    /// The operation that a pressed-or-not flag stands for.
    pub open spec fn of_spec(down: bool) -> UserOperation {
        if down {
            UserOperation::Down
        } else {
            UserOperation::Up
        }
    }

    /// The operation that a pressed-or-not flag stands for.
    pub fn of(down: bool) -> (operation: UserOperation)
        ensures
            operation == UserOperation::of_spec(down),
    {
        if down {
            UserOperation::Down
        } else {
            UserOperation::Up
        }
    }
}

/// A change in the life of the whole application.
#[derive(Clone, Copy, Debug, PartialEq, Eq, Structural)]
pub enum AppEvent {
    Terminating,
    LowMemory,
    WillEnterBackground,
    DidEnterBackground,
    WillEnterForeground,
    DidEnterForeground,
    LocaleChanged,
    SystemThemeChanged,
}

/// A change in the state of one window.
#[derive(Clone, Copy, Debug, PartialEq, Eq, Structural)]
pub enum WindowEvent {
    Shown,
    Hidden,
    Exposed { is_live_resize: bool },
    Moved { position: Point },
    Resized { size: Point },
    PixelSizeChanged { size: Point },
    MetalViewResized,
    Minimized,
    Maximized,
    Restored,
    MouseEnter,
    MouseLeave,
    FocusGained,
    FocusLost,
    HitTest,
    IccProfileChanged,
    DisplayChanged { display_id: u32 },
    DisplayScaleChanged,
    SafeAreaChanged,
    Occluded,
    EnterFullscreen,
    LeaveFullscreen,
    Destroyed,
    HdrStateChanged,
}

/// What an event reports.
#[allow(inconsistent_fields)]
#[derive(Clone, Copy, Debug, PartialEq, Eq)]
pub enum RawEvent {
    Quit,
    App { event: AppEvent },
    Window { window_id: WindowId, event: WindowEvent },
    WindowClose { id: WindowId },
    KeymapChanged,
    Keyboard {
        window_id: WindowId,
        keyboard_id: KeyboardId,
        scan_code: Scancode,
        key_code: KeyCode,
        keymod: Keymod,
        raw_scancode: u16,
        is_down: bool,
        is_repeat: bool,
        user_operation: UserOperation,
    },
    TextEditing { window_id: WindowId, text: InlineText, start: i32, length: i32 },
    TextInput { window_id: WindowId, text: InlineText },
    KeyboardDevice { keyboard_id: KeyboardId, operation: DeviceOperation },
    MouseDevice { mouse_id: MouseId, operation: DeviceOperation },
    MouseMotion {
        window_id: WindowId,
        mouse_id: MouseId,
        state: Button,
        position: FPoint,
        relative: FPoint,
    },
    MouseButton {
        window_id: WindowId,
        mouse_id: MouseId,
        button: Button,
        down: bool,
        clicks: u8,
        position: FPoint,
        user_operation: UserOperation,
    },
    MouseWheel {
        window_id: WindowId,
        mouse_id: MouseId,
        scroll: FPoint,
        direction: MouseWheelDirection,
        position: FPoint,
        accumulated_scroll: Point,
    },
    /// An event of a kind the model does not know, with its native tag.
    Unknown { type_id: u64 },
}

/// One thing that happened, with the time at which the platform saw it.
#[derive(Clone, Copy, Debug, PartialEq, Eq)]
pub struct Event {
    /// Nanoseconds on the platform's own clock.
    pub ns_timestamp: u64,
    pub raw: RawEvent,
}

} // verus!
