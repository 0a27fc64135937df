//! Windows of the platform: how one is created, what may be asked of it,
//! and what is kept of it.

use vstd::prelude::*;
use smol_str::SmolStr;
use crate::building::platform::Os;
use crate::error::{has_nul, has_nul_spec, SdlError};
use crate::event::RawEvent;
use crate::id::{HasId, WindowId};
use crate::rect::Size;
use crate::spatial::HasSize;

verus! {

/// `smol_str::SmolStr`: a text that is cheap to copy. What it holds is
/// named by [`smol_text`].
#[verifier::external_type_specification]
#[verifier::external_body]
pub struct ExSmolStr(SmolStr);

/// The characters that a `SmolStr` holds.
pub uninterp spec fn smol_text(text: SmolStr) -> Seq<char>;

/// `smol_str::SmolStr::new`: the small text that holds the characters of
/// `text`, all of them and in order.
#[verifier::external_body]
fn smol_from_str(text: &str) -> (small: SmolStr)
    ensures
        smol_text(small) == text@,
{
    SmolStr::new(text)
}

/// `smol_str::SmolStr::clone`: a copy that holds the same characters.
#[verifier::external_body]
fn smol_clone(small: &SmolStr) -> (copy: SmolStr)
    ensures
        smol_text(copy) == smol_text(*small),
{
    small.clone()
}

/// The window can be resized by the user.
pub const WINDOW_RESIZABLE: u64 = 0x0000_0020;

/// The window can be drawn on through Vulkan.
pub const WINDOW_VULKAN: u64 = 0x1000_0000;

/// The window can be drawn on through Metal.
pub const WINDOW_METAL: u64 = 0x2000_0000;

/// How a window is asked for.
#[derive(Debug, Clone)]
pub struct WindowOption {
    pub title: String,
    pub size: Size,
}

/// Something to ask of the platform about one window.
#[derive(Debug, Clone, PartialEq, Eq)]
pub enum NativeCall {
    /// Create the window. Answered by [`NativeReply::Done`].
    CreateWindow { title: String, width: i32, height: i32, flags: u64 },
    /// Show the window. Answered by [`NativeReply::Done`].
    ShowWindow,
    /// Hide the window. Answered by [`NativeReply::Done`].
    HideWindow,
    /// Tell the window's identifier. Answered by [`NativeReply::WindowId`].
    GetWindowId,
    /// Create the view through which Metal draws on the window. Answered
    /// by [`NativeReply::Done`].
    CreateMetalView,
    /// Tell the handles by which Windows knows the window. Answered by
    /// [`NativeReply::Handles`].
    GetWin32Handles,
    /// Tell the window's size. Answered by [`NativeReply::Size`].
    GetWindowSize,
    /// Set the window's size. Answered by [`NativeReply::Done`].
    SetWindowSize { width: i32, height: i32 },
    /// Tell the window's title. Answered by [`NativeReply::Title`].
    GetWindowTitle,
    /// Set the window's title. Answered by [`NativeReply::Done`].
    SetWindowTitle { title: String },
    /// Destroy the view through which Metal draws on the window.
    DestroyMetalView,
    /// Destroy the window.
    DestroyWindow,
}

/// What the platform answered.
#[derive(Debug, Clone, PartialEq, Eq)]
pub enum NativeReply {
    /// Whether the platform did what it was asked.
    Done { ok: bool },
    /// The window's identifier.
    WindowId { id: u32 },
    /// The handles by which Windows knows the window and the module that
    /// owns it; 0 where the platform gave none.
    Handles { window: isize, instance: isize },
    /// The window's size, or `None` where the platform did not tell it.
    Size { size: Option<Size> },
    /// The window's title, or `None` where the platform gave no text.
    Title { title: Option<String> },
}

/// What an operation on a window gave.
#[derive(Debug, Clone, PartialEq, Eq)]
pub enum WindowAnswer {
    /// The platform did what it was asked.
    Done,
    /// The window's size.
    Size { size: Size },
    /// The window's title.
    Title { title: String },
}

/// What an operation on a window gave, with a title as its characters.
pub enum WindowAnswerView {
    Done,
    Size { size: Size },
    Title { title: Seq<char> },
}

impl View for WindowAnswer {
    type V = WindowAnswerView;

    open spec fn view(&self) -> WindowAnswerView {
        match self {
            WindowAnswer::Done => WindowAnswerView::Done,
            WindowAnswer::Size { size } => WindowAnswerView::Size { size: *size },
            WindowAnswer::Title { title } => WindowAnswerView::Title { title: title@ },
        }
    }
}

/// The outcome of an operation on a window, with a title as its
/// characters.
pub open spec fn answer_view(answer: Result<WindowAnswer, SdlError>) -> Result<
    WindowAnswerView,
    SdlError,
> {
    match answer {
        Ok(answer) => Ok(answer@),
        Err(error) => Err(error),
    }
}

/// The way in which the platform draws on a window.
#[derive(Debug, Clone, Copy, PartialEq, Eq, Structural)]
pub enum WindowSystem {
    /// macOS: through a Metal view.
    AppKit,
    /// Windows: through the window's own handles.
    Win32,
}

impl WindowSystem {
    /// The way in which windows are drawn on under `os`, if windows are
    /// supported there.
    pub open spec fn of_spec(os: Os) -> Option<WindowSystem> {
        match os {
            Os::MacOS => Some(WindowSystem::AppKit),
            Os::Windows => Some(WindowSystem::Win32),
            Os::Linux => None,
        }
    }

    /// The way in which windows are drawn on under `os`, if windows are
    /// supported there.
    pub fn of(os: Os) -> (system: Option<WindowSystem>)
        ensures
            system == WindowSystem::of_spec(os),
    {
        match os {
            Os::MacOS => Some(WindowSystem::AppKit),
            Os::Windows => Some(WindowSystem::Win32),
            Os::Linux => None,
        }
    }

    /// The flags with which a window is created: it can be resized, and
    /// it can be drawn on through Metal on macOS, through Vulkan on
    /// Windows.
    pub open spec fn flags_spec(self) -> u64 {
        match self {
            WindowSystem::AppKit => 0x2000_0020,
            WindowSystem::Win32 => 0x1000_0020,
        }
    }

    /// The flags with which a window is created.
    pub fn flags(self) -> (flags: u64)
        ensures
            flags == self.flags_spec(),
            flags & WINDOW_RESIZABLE != 0,
            self == WindowSystem::AppKit ==> flags == WINDOW_RESIZABLE | WINDOW_METAL,
            self == WindowSystem::Win32 ==> flags == WINDOW_RESIZABLE | WINDOW_VULKAN,
    {
        assert(0x0000_0020u64 | 0x2000_0000u64 == 0x2000_0020u64) by (bit_vector);
        assert(0x0000_0020u64 | 0x1000_0000u64 == 0x1000_0020u64) by (bit_vector);
        assert(0x2000_0020u64 & 0x0000_0020u64 != 0) by (bit_vector);
        assert(0x1000_0020u64 & 0x0000_0020u64 != 0) by (bit_vector);
        match self {
            WindowSystem::AppKit => WINDOW_RESIZABLE | WINDOW_METAL,
            WindowSystem::Win32 => WINDOW_RESIZABLE | WINDOW_VULKAN,
        }
    }
}

/// Where a window is in its life.
#[derive(Debug, Clone, Copy, PartialEq, Eq, Structural)]
pub enum WindowState {
    /// The window exists on the platform; it is not open for use yet.
    Created,
    /// The window is open for use.
    Open,
    /// The window was closed, for good.
    Closed,
}

/// A window of the platform: its identifier and where it is in its life.
///
/// A window is created, then marked open, once everything that belongs
/// to it is there, and at some point closed, once and for good. Only for
/// an open window is an operation asked of the platform.
#[derive(Debug, Clone, Copy, PartialEq, Eq, Structural)]
pub struct WindowHandler {
    id: WindowId,
    system: WindowSystem,
    state: WindowState,
}

/// How far the creation of a window has come.
#[derive(Debug, Clone, Copy, PartialEq, Eq, Structural)]
pub enum CreationStage {
    /// The platform was asked to create the window.
    Creating,
    /// The window exists; the platform was asked to show it.
    Showing,
    /// The window is shown; the platform was asked for its identifier.
    Identifying,
    /// The platform was asked for the Metal view of the window `id`.
    MakingView { id: u32 },
    /// The platform was asked for the handles of the window `id`.
    AskingHandles { id: u32 },
    /// A step failed after the window came to exist; the platform was
    /// asked to destroy the window again.
    Destroying { error: SdlError },
}

/// The creation of a window, under way.
#[derive(Debug, Clone, Copy, PartialEq, Eq, Structural)]
pub struct WindowCreation {
    pub system: WindowSystem,
    pub stage: CreationStage,
}

/// How the creation of a window goes on after an answer of the platform.
#[derive(Debug, Clone, PartialEq, Eq)]
pub enum CreationStep {
    /// The platform is to be asked `call`; its answer goes to `creation`.
    Call { creation: WindowCreation, call: NativeCall },
    /// The window is there. It is not open yet: it is marked open once
    /// what belongs to it is there too.
    Ready { window: WindowHandler },
    /// The window is not there, and nothing of it is left.
    Failed { error: SdlError },
}

impl WindowCreation {
    /// The step that gives up a window that exists already: the window
    /// is destroyed before the error is reported.
    pub open spec fn give_up_spec(self, error: SdlError) -> CreationStep {
        CreationStep::Call {
            creation: WindowCreation {
                system: self.system,
                stage: CreationStage::Destroying { error },
            },
            call: NativeCall::DestroyWindow,
        }
    }

    /// The step that asks `call` and goes on to `stage`.
    pub open spec fn go_on_spec(self, stage: CreationStage, call: NativeCall) -> CreationStep {
        CreationStep::Call { creation: WindowCreation { system: self.system, stage }, call }
    }

    /// How the creation goes on after the platform answered `reply`.
    ///
    /// The window is created, shown and identified, in that order; then
    /// the platform is asked for what drawing needs: the Metal view on
    /// macOS, the window's handles on Windows. A step that fails ends the
    /// creation; where the window exists by then, it is destroyed first.
    /// An answer that does not fit what was asked counts as a failure.
    pub open spec fn advance_spec(self, reply: NativeReply) -> CreationStep {
        match self.stage {
            CreationStage::Creating => match reply {
                NativeReply::Done { ok: true } => self.go_on_spec(
                    CreationStage::Showing,
                    NativeCall::ShowWindow,
                ),
                NativeReply::Done { ok: false } => CreationStep::Failed {
                    error: SdlError::CreateWindow,
                },
                _ => CreationStep::Failed { error: SdlError::UnexpectedReply },
            },
            CreationStage::Showing => match reply {
                NativeReply::Done { ok: true } => self.go_on_spec(
                    CreationStage::Identifying,
                    NativeCall::GetWindowId,
                ),
                NativeReply::Done { ok: false } => self.give_up_spec(SdlError::ShowWindow),
                _ => self.give_up_spec(SdlError::UnexpectedReply),
            },
            CreationStage::Identifying => match reply {
                NativeReply::WindowId { id } => match self.system {
                    WindowSystem::AppKit => self.go_on_spec(
                        CreationStage::MakingView { id },
                        NativeCall::CreateMetalView,
                    ),
                    WindowSystem::Win32 => self.go_on_spec(
                        CreationStage::AskingHandles { id },
                        NativeCall::GetWin32Handles,
                    ),
                },
                _ => self.give_up_spec(SdlError::UnexpectedReply),
            },
            CreationStage::MakingView { id } => match reply {
                NativeReply::Done { ok: true } => CreationStep::Ready {
                    window: WindowHandler::created(id as u64, self.system),
                },
                NativeReply::Done { ok: false } => self.give_up_spec(SdlError::CreateView),
                _ => self.give_up_spec(SdlError::UnexpectedReply),
            },
            CreationStage::AskingHandles { id } => match reply {
                NativeReply::Handles { window, instance } => if window == 0 {
                    self.give_up_spec(SdlError::MissingWindowHandle)
                } else if instance == 0 {
                    self.give_up_spec(SdlError::MissingInstanceHandle)
                } else {
                    CreationStep::Ready { window: WindowHandler::created(id as u64, self.system) }
                },
                _ => self.give_up_spec(SdlError::UnexpectedReply),
            },
            CreationStage::Destroying { error } => CreationStep::Failed { error },
        }
    }

    fn give_up(self, error: SdlError) -> (step: CreationStep)
        ensures
            step == self.give_up_spec(error),
    {
        CreationStep::Call {
            creation: WindowCreation {
                system: self.system,
                stage: CreationStage::Destroying { error },
            },
            call: NativeCall::DestroyWindow,
        }
    }

    fn go_on(self, stage: CreationStage, call: NativeCall) -> (step: CreationStep)
        ensures
            step == self.go_on_spec(stage, call),
    {
        CreationStep::Call { creation: WindowCreation { system: self.system, stage }, call }
    }

    /// Goes on with the creation after the platform answered `reply` to
    /// the call that the last step asked for.
    pub fn advance(self, reply: NativeReply) -> (step: CreationStep)
        ensures
            step == self.advance_spec(reply),
    {
        match self.stage {
            CreationStage::Creating => match reply {
                NativeReply::Done { ok } => if ok {
                    self.go_on(CreationStage::Showing, NativeCall::ShowWindow)
                } else {
                    CreationStep::Failed { error: SdlError::CreateWindow }
                },
                _ => CreationStep::Failed { error: SdlError::UnexpectedReply },
            },
            CreationStage::Showing => match reply {
                NativeReply::Done { ok } => if ok {
                    self.go_on(CreationStage::Identifying, NativeCall::GetWindowId)
                } else {
                    self.give_up(SdlError::ShowWindow)
                },
                _ => self.give_up(SdlError::UnexpectedReply),
            },
            CreationStage::Identifying => match reply {
                NativeReply::WindowId { id } => match self.system {
                    WindowSystem::AppKit => self.go_on(
                        CreationStage::MakingView { id },
                        NativeCall::CreateMetalView,
                    ),
                    WindowSystem::Win32 => self.go_on(
                        CreationStage::AskingHandles { id },
                        NativeCall::GetWin32Handles,
                    ),
                },
                _ => self.give_up(SdlError::UnexpectedReply),
            },
            CreationStage::MakingView { id } => match reply {
                NativeReply::Done { ok } => if ok {
                    CreationStep::Ready {
                        window: WindowHandler {
                            id: id as u64,
                            system: self.system,
                            state: WindowState::Created,
                        },
                    }
                } else {
                    self.give_up(SdlError::CreateView)
                },
                _ => self.give_up(SdlError::UnexpectedReply),
            },
            CreationStage::AskingHandles { id } => match reply {
                NativeReply::Handles { window, instance } => if window == 0 {
                    self.give_up(SdlError::MissingWindowHandle)
                } else if instance == 0 {
                    self.give_up(SdlError::MissingInstanceHandle)
                } else {
                    CreationStep::Ready {
                        window: WindowHandler {
                            id: id as u64,
                            system: self.system,
                            state: WindowState::Created,
                        },
                    }
                },
                _ => self.give_up(SdlError::UnexpectedReply),
            },
            CreationStage::Destroying { error } => CreationStep::Failed { error },
        }
    }

    /// Whether the window exists on the platform at this stage.
    pub open spec fn window_exists(self) -> bool {
        !(self.stage is Creating) && !(self.stage is Destroying)
    }

    /// A creation never leaves a window behind: where the window exists
    /// and a step fails, the next call destroys the window, and only the
    /// answer to that call ends the creation with the error. A window that
    /// is ready is not open yet.
    pub proof fn lemma_failure_destroys_window(self, reply: NativeReply)
        ensures
            self.window_exists() ==> !(self.advance_spec(reply) is Failed),
            self.advance_spec(reply) matches CreationStep::Call { creation, call } ==> (
            creation.stage is Destroying <==> call == NativeCall::DestroyWindow),
            self.advance_spec(reply) matches CreationStep::Call { creation, .. } ==> (
            creation.stage is Destroying || creation.window_exists()),
            self.advance_spec(reply) matches CreationStep::Ready { window } ==> window.state_spec()
                == WindowState::Created,
    {
    }
}

impl WindowHandler {
    /// The identifier of the window.
    pub closed spec fn id_spec(self) -> WindowId {
        self.id
    }

    /// Where the window is in its life.
    pub closed spec fn state_spec(self) -> WindowState {
        self.state
    }

    /// Whether the window is open.
    pub open spec fn is_open_spec(self) -> bool {
        self.state_spec() == WindowState::Open
    }

    /// The way in which the platform draws on the window.
    pub closed spec fn system_spec(self) -> WindowSystem {
        self.system
    }

    /// The window with the given identifier, just created.
    pub closed spec fn created(id: WindowId, system: WindowSystem) -> WindowHandler {
        WindowHandler { id, system, state: WindowState::Created }
    }

    /// A window that was just created is not open yet, and has the
    /// identifier and the drawing system it was made with.
    pub proof fn lemma_created(id: WindowId, system: WindowSystem)
        ensures
            WindowHandler::created(id, system).state_spec() == WindowState::Created,
            WindowHandler::created(id, system).id_spec() == id,
            WindowHandler::created(id, system).system_spec() == system,
    {
    }

    /// The state after a window in the state `state` is marked open: a
    /// closed window stays closed.
    pub open spec fn marked_open(state: WindowState) -> WindowState {
        if state == WindowState::Closed {
            WindowState::Closed
        } else {
            WindowState::Open
        }
    }

    /// Marks the window open, as the last step of its making. A window
    /// that was closed stays closed. It returns whether the window is
    /// open now.
    pub fn mark_open(&mut self) -> (open: bool)
        ensures
            final(self).state_spec() == WindowHandler::marked_open(old(self).state_spec()),
            open == final(self).is_open_spec(),
            final(self).id_spec() == old(self).id_spec(),
            final(self).system_spec() == old(self).system_spec(),
    {
        match self.state {
            WindowState::Closed => false,
            _ => {
                self.state = WindowState::Open;
                true
            },
        }
    }

    /// Where the window is in its life.
    pub fn state(&self) -> (state: WindowState)
        ensures
            state == self.state_spec(),
    {
        self.state
    }

    /// How the creation of a window begins, as a value.
    pub open spec fn new_spec(option: WindowOption, os: Os) -> Result<
        (WindowCreation, NativeCall),
        SdlError,
    > {
        match WindowSystem::of_spec(os) {
            None => Err(SdlError::UnsupportedPlatform),
            Some(system) => if has_nul_spec(option.title@) {
                Err(SdlError::InvalidTitle)
            } else {
                Ok(
                    (
                        WindowCreation { system, stage: CreationStage::Creating },
                        NativeCall::CreateWindow {
                            title: option.title,
                            width: option.size.width,
                            height: option.size.height,
                            flags: system.flags_spec(),
                        },
                    ),
                )
            },
        }
    }

    /// Begins the creation of a window under the operating system `os`:
    /// the first thing to ask of the platform, and the creation that
    /// takes its answer ([`WindowCreation::advance`]).
    ///
    /// It fails, with nothing asked of the platform, where windows are
    /// not supported under `os` or the title holds a NUL character.
    pub fn new(option: WindowOption, os: Os) -> (begun: Result<
        (WindowCreation, NativeCall),
        SdlError,
    >)
        ensures
            begun == WindowHandler::new_spec(option, os),
    {
        let system = match WindowSystem::of(os) {
            Some(system) => system,
            None => {
                return Err(SdlError::UnsupportedPlatform);
            },
        };
        if has_nul(option.title.as_str()) {
            return Err(SdlError::InvalidTitle);
        }
        Ok(
            (
                WindowCreation { system, stage: CreationStage::Creating },
                NativeCall::CreateWindow {
                    title: option.title,
                    width: option.size.width,
                    height: option.size.height,
                    flags: system.flags(),
                },
            ),
        )
    }

    /// The identifier of the window.
    pub fn id(&self) -> (id: u64)
        ensures
            id == self.id_spec(),
    {
        self.id
    }

    /// The way in which the platform draws on the window.
    pub fn system(&self) -> (system: WindowSystem)
        ensures
            system == self.system_spec(),
    {
        self.system
    }

    /// Whether the window is open.
    pub fn is_open(&self) -> (open: bool)
        ensures
            open == self.is_open_spec(),
    {
        match self.state {
            WindowState::Open => true,
            _ => false,
        }
    }

    /// Closes the window for good: from now on every operation on it
    /// fails without asking the platform.
    pub fn close(&mut self)
        ensures
            final(self).state_spec() == WindowState::Closed,
            final(self).id_spec() == old(self).id_spec(),
            final(self).system_spec() == old(self).system_spec(),
    {
        self.state = WindowState::Closed;
    }

    /// Succeeds where the window is open.
    pub fn checked_open(&self) -> (checked: Result<(), SdlError>)
        ensures
            checked == if self.is_open_spec() {
                Ok::<(), SdlError>(())
            } else {
                Err::<(), SdlError>(SdlError::ClosedWindow)
            },
    {
        if !self.is_open() {
            Err(SdlError::ClosedWindow)
        } else {
            Ok(())
        }
    }

    /// What to ask of the platform for `call` on this window: the call
    /// itself where the window is open; for any other window nothing is
    /// asked and the operation fails.
    pub open spec fn ask_spec(self, call: NativeCall) -> Result<NativeCall, SdlError> {
        if self.is_open_spec() {
            Ok(call)
        } else {
            Err(SdlError::ClosedWindow)
        }
    }

    /// Once a window is closed, every operation on it fails with the
    /// error that says so, and nothing is asked of the platform; and
    /// closing is for good: marking a closed window open leaves it closed.
    pub proof fn lemma_closed_window_asks_nothing(self, call: NativeCall)
        requires
            self.state_spec() == WindowState::Closed,
        ensures
            self.ask_spec(call) == Err::<NativeCall, SdlError>(SdlError::ClosedWindow),
            !(self.ask_spec(call) is Ok),
            WindowHandler::marked_open(self.state_spec()) == WindowState::Closed,
    {
    }

    fn ask(&self, call: NativeCall) -> (asked: Result<NativeCall, SdlError>)
        ensures
            asked == self.ask_spec(call),
    {
        match self.checked_open() {
            Ok(()) => Ok(call),
            Err(error) => Err(error),
        }
    }

    /// Asks for the window's size. The answer is read by
    /// [`WindowHandler::finish`].
    pub fn size(&self) -> (asked: Result<NativeCall, SdlError>)
        ensures
            asked == self.ask_spec(NativeCall::GetWindowSize),
    {
        self.ask(NativeCall::GetWindowSize)
    }

    /// Asks to set the window's size: to `size`, but at least one pixel
    /// each way.
    pub fn set_size(&mut self, size: Size) -> (asked: Result<NativeCall, SdlError>)
        ensures
            asked == old(self).ask_spec(
                NativeCall::SetWindowSize {
                    width: size.at_least_one_spec().width,
                    height: size.at_least_one_spec().height,
                },
            ),
            *final(self) == *old(self),
    {
        let size = size.at_least_one();
        self.ask(NativeCall::SetWindowSize { width: size.width, height: size.height })
    }

    /// Asks for the window's title.
    pub fn title(&self) -> (asked: Result<NativeCall, SdlError>)
        ensures
            asked == self.ask_spec(NativeCall::GetWindowTitle),
    {
        self.ask(NativeCall::GetWindowTitle)
    }

    /// Asks to set the window's title. A title with a NUL character is
    /// refused, but only for an open window: any other one fails as every
    /// operation on it does.
    pub fn set_title(&mut self, title: &str) -> (asked: Result<NativeCall, SdlError>)
        ensures
            !old(self).is_open_spec() ==> asked == Err::<NativeCall, SdlError>(
                SdlError::ClosedWindow,
            ),
            old(self).is_open_spec() && has_nul_spec(title@) ==> asked == Err::<
                NativeCall,
                SdlError,
            >(SdlError::InvalidTitle),
            old(self).is_open_spec() && !has_nul_spec(title@) ==> (asked matches Ok(
                NativeCall::SetWindowTitle { title: asked_title },
            ) && asked_title@ == title@),
            *final(self) == *old(self),
    {
        if !self.is_open() {
            return Err(SdlError::ClosedWindow);
        }
        if has_nul(title) {
            return Err(SdlError::InvalidTitle);
        }
        Ok(NativeCall::SetWindowTitle { title: title.to_owned() })
    }

    /// Asks to show the window.
    pub fn show(&mut self) -> (asked: Result<NativeCall, SdlError>)
        ensures
            asked == old(self).ask_spec(NativeCall::ShowWindow),
            *final(self) == *old(self),
    {
        self.ask(NativeCall::ShowWindow)
    }

    /// Asks to hide the window.
    pub fn hide_window(&mut self) -> (asked: Result<NativeCall, SdlError>)
        ensures
            asked == old(self).ask_spec(NativeCall::HideWindow),
            *final(self) == *old(self),
    {
        self.ask(NativeCall::HideWindow)
    }

    /// What the platform's answer `reply` to `call` gives: a failure of
    /// the platform becomes the error of the operation; a title that the
    /// platform did not give is the empty title; an answer that does not
    /// fit the call is an error of its own.
    pub open spec fn finish_spec(call: NativeCall, reply: NativeReply) -> Result<
        WindowAnswerView,
        SdlError,
    > {
        match (call, reply) {
            (NativeCall::ShowWindow, NativeReply::Done { ok }) => if ok {
                Ok(WindowAnswerView::Done)
            } else {
                Err(SdlError::ShowWindow)
            },
            (NativeCall::HideWindow, NativeReply::Done { ok }) => if ok {
                Ok(WindowAnswerView::Done)
            } else {
                Err(SdlError::HideWindow)
            },
            (NativeCall::SetWindowSize { .. }, NativeReply::Done { ok }) => if ok {
                Ok(WindowAnswerView::Done)
            } else {
                Err(SdlError::SetWindowSize)
            },
            (NativeCall::SetWindowTitle { .. }, NativeReply::Done { ok }) => if ok {
                Ok(WindowAnswerView::Done)
            } else {
                Err(SdlError::SetWindowTitle)
            },
            (NativeCall::GetWindowSize, NativeReply::Size { size }) => match size {
                Some(size) => Ok(WindowAnswerView::Size { size }),
                None => Err(SdlError::GetWindowSize),
            },
            (NativeCall::GetWindowTitle, NativeReply::Title { title }) => match title {
                Some(title) => Ok(WindowAnswerView::Title { title: title@ }),
                None => Ok(WindowAnswerView::Title { title: Seq::<char>::empty() }),
            },
            _ => Err(SdlError::UnexpectedReply),
        }
    }

    /// Reads the platform's answer `reply` to `call`.
    pub fn finish(call: &NativeCall, reply: NativeReply) -> (answer: Result<WindowAnswer, SdlError>)
        ensures
            answer_view(answer) == WindowHandler::finish_spec(*call, reply),
    {
        match (call, reply) {
            (NativeCall::ShowWindow, NativeReply::Done { ok }) => if ok {
                Ok(WindowAnswer::Done)
            } else {
                Err(SdlError::ShowWindow)
            },
            (NativeCall::HideWindow, NativeReply::Done { ok }) => if ok {
                Ok(WindowAnswer::Done)
            } else {
                Err(SdlError::HideWindow)
            },
            (NativeCall::SetWindowSize { .. }, NativeReply::Done { ok }) => if ok {
                Ok(WindowAnswer::Done)
            } else {
                Err(SdlError::SetWindowSize)
            },
            (NativeCall::SetWindowTitle { .. }, NativeReply::Done { ok }) => if ok {
                Ok(WindowAnswer::Done)
            } else {
                Err(SdlError::SetWindowTitle)
            },
            (NativeCall::GetWindowSize, NativeReply::Size { size }) => match size {
                Some(size) => Ok(WindowAnswer::Size { size }),
                None => Err(SdlError::GetWindowSize),
            },
            (NativeCall::GetWindowTitle, NativeReply::Title { title }) => match title {
                Some(title) => Ok(WindowAnswer::Title { title }),
                None => Ok(WindowAnswer::Title { title: String::new() }),
            },
            _ => Err(SdlError::UnexpectedReply),
        }
    }

    /// What to ask of the platform to destroy the window, in order: what
    /// was made last goes first.
    pub open spec fn destroy_spec(self) -> Seq<NativeCall> {
        match self.system_spec() {
            WindowSystem::AppKit => seq![NativeCall::DestroyMetalView, NativeCall::DestroyWindow],
            WindowSystem::Win32 => seq![NativeCall::DestroyWindow],
        }
    }

    /// Gives the window up: what to ask of the platform to destroy it,
    /// in order. The window itself is always the last to go.
    pub fn destroy(self) -> (calls: Vec<NativeCall>)
        ensures
            calls@ == self.destroy_spec(),
            calls@.len() >= 1,
            calls@.last() == NativeCall::DestroyWindow,
    {
        let mut calls: Vec<NativeCall> = Vec::new();
        match self.system {
            WindowSystem::AppKit => {
                calls.push(NativeCall::DestroyMetalView);
            },
            WindowSystem::Win32 => {},
        }
        calls.push(NativeCall::DestroyWindow);
        proof {
            assert(calls@ =~= self.destroy_spec());
        }
        calls
    }
}

/// A window together with what was last learnt of its title and size.
#[derive(Debug)]
pub struct Window {
    window: WindowHandler,
    title: SmolStr,
    size: Size,
}

impl Window {
    /// The window itself.
    pub closed spec fn handler_spec(self) -> WindowHandler {
        self.window
    }

    /// The title, as it was last learnt.
    pub closed spec fn title_spec(self) -> Seq<char> {
        smol_text(self.title)
    }

    /// The size, as it was last learnt.
    pub closed spec fn size_spec(self) -> Size {
        self.size
    }

    /// The window `window` with the title and the size that the platform
    /// told of it.
    pub fn new(window: WindowHandler, title: &str, size: Size) -> (made: Window)
        ensures
            made.handler_spec() == window,
            made.title_spec() == title@,
            made.size_spec() == size,
    {
        Window { window, title: smol_from_str(title), size }
    }

    /// What to ask of the platform about a window that was just created,
    /// in order: its title and its size, with which the window is made
    /// ([`Window::new`]).
    pub fn first_calls() -> (calls: Vec<NativeCall>)
        ensures
            calls@ == seq![NativeCall::GetWindowTitle, NativeCall::GetWindowSize],
    {
        let mut calls: Vec<NativeCall> = Vec::new();
        calls.push(NativeCall::GetWindowTitle);
        calls.push(NativeCall::GetWindowSize);
        proof {
            assert(calls@ =~= seq![NativeCall::GetWindowTitle, NativeCall::GetWindowSize]);
        }
        calls
    }

    /// What to ask of the platform to learn the title and the size anew,
    /// in order; nothing is asked unless the window is open.
    pub fn update_calls(&self) -> (calls: Result<Vec<NativeCall>, SdlError>)
        ensures
            !self.handler_spec().is_open_spec() ==> calls == Err::<Vec<NativeCall>, SdlError>(
                SdlError::ClosedWindow,
            ),
            self.handler_spec().is_open_spec() ==> calls is Ok && calls.unwrap()@ == seq![
                NativeCall::GetWindowTitle,
                NativeCall::GetWindowSize,
            ],
    {
        if !self.window.is_open() {
            return Err(SdlError::ClosedWindow);
        }
        let mut calls: Vec<NativeCall> = Vec::new();
        calls.push(NativeCall::GetWindowTitle);
        calls.push(NativeCall::GetWindowSize);
        proof {
            assert(calls@ =~= seq![NativeCall::GetWindowTitle, NativeCall::GetWindowSize]);
        }
        Ok(calls)
    }

    /// Takes in the platform's answer `reply` to `call`: a title or a
    /// size that it tells replaces what was known; a failure is returned
    /// and changes nothing.
    pub fn update(&mut self, call: &NativeCall, reply: NativeReply) -> (updated: Result<
        (),
        SdlError,
    >)
        ensures
            final(self).handler_spec() == old(self).handler_spec(),
            match WindowHandler::finish_spec(*call, reply) {
                Ok(WindowAnswerView::Done) => updated is Ok && final(self).title_spec() == old(
                    self,
                ).title_spec() && final(self).size_spec() == old(self).size_spec(),
                Ok(WindowAnswerView::Size { size }) => updated is Ok && final(self).title_spec()
                    == old(self).title_spec() && final(self).size_spec() == size,
                Ok(WindowAnswerView::Title { title }) => updated is Ok && final(self).title_spec()
                    == title && final(self).size_spec() == old(self).size_spec(),
                Err(error) => updated == Err::<(), SdlError>(error) && final(self).title_spec()
                    == old(self).title_spec() && final(self).size_spec() == old(self).size_spec(),
            },
    {
        match WindowHandler::finish(call, reply) {
            Ok(WindowAnswer::Done) => Ok(()),
            Ok(WindowAnswer::Size { size }) => {
                self.size = size;
                Ok(())
            },
            Ok(WindowAnswer::Title { title }) => {
                self.title = smol_from_str(title.as_str());
                Ok(())
            },
            Err(error) => Err(error),
        }
    }

    /// The window itself.
    pub fn window(&self) -> (handler: &WindowHandler)
        ensures
            *handler == self.handler_spec(),
    {
        &self.window
    }

    /// The window itself, to work on; what was learnt of it stays.
    pub fn window_mut(&mut self) -> (handler: &mut WindowHandler)
        ensures
            *handler == old(self).handler_spec(),
            final(self).handler_spec() == *final(handler),
            final(self).title_spec() == old(self).title_spec(),
            final(self).size_spec() == old(self).size_spec(),
    {
        &mut self.window
    }

    /// The identifier of the window.
    pub fn id(&self) -> (id: WindowId)
        ensures
            id == self.handler_spec().id_spec(),
    {
        self.window.id()
    }

    /// The size, as it was last learnt.
    pub fn get_size(&self) -> (size: Size)
        ensures
            size == self.size_spec(),
    {
        self.size
    }

    /// Resizes the window: to `size`, but at least one pixel each way.
    /// For an open window that size is kept as the window's at once, and
    /// the platform is to be asked for it. For any other window nothing
    /// is asked and nothing changes.
    pub fn try_set_size(&mut self, size: Size) -> (asked: Result<NativeCall, SdlError>)
        ensures
            final(self).handler_spec() == old(self).handler_spec(),
            final(self).title_spec() == old(self).title_spec(),
            if old(self).handler_spec().is_open_spec() {
                &&& asked == Ok::<NativeCall, SdlError>(
                    NativeCall::SetWindowSize {
                        width: size.at_least_one_spec().width,
                        height: size.at_least_one_spec().height,
                    },
                )
                &&& final(self).size_spec() == size.at_least_one_spec()
            } else {
                &&& asked == Err::<NativeCall, SdlError>(SdlError::ClosedWindow)
                &&& final(self).size_spec() == old(self).size_spec()
            },
    {
        let asked = self.window.set_size(size);
        if asked.is_ok() {
            self.size = size.at_least_one();
        }
        asked
    }

    /// The title, as it was last learnt, of an open window; for any
    /// other window the error that says that it is not open.
    pub fn title(&self) -> (title: Result<SmolStr, SdlError>)
        ensures
            match title {
                Ok(text) => self.handler_spec().is_open_spec() && smol_text(text)
                    == self.title_spec(),
                Err(error) => !self.handler_spec().is_open_spec() && error
                    == SdlError::ClosedWindow,
            },
    {
        match self.window.checked_open() {
            Ok(()) => Ok(smol_clone(&self.title)),
            Err(error) => Err(error),
        }
    }

    /// Asks to set the window's title.
    pub fn set_title(&mut self, title: &str) -> (asked: Result<NativeCall, SdlError>)
        ensures
            !old(self).handler_spec().is_open_spec() ==> asked == Err::<NativeCall, SdlError>(
                SdlError::ClosedWindow,
            ),
            old(self).handler_spec().is_open_spec() && has_nul_spec(title@) ==> asked == Err::<
                NativeCall,
                SdlError,
            >(SdlError::InvalidTitle),
            old(self).handler_spec().is_open_spec() && !has_nul_spec(title@) ==> (asked matches Ok(
                NativeCall::SetWindowTitle { title: asked_title },
            ) && asked_title@ == title@),
            final(self).handler_spec() == old(self).handler_spec(),
            final(self).title_spec() == old(self).title_spec(),
            final(self).size_spec() == old(self).size_spec(),
    {
        self.window.set_title(title)
    }

    /// Asks to hide the window.
    pub fn hide_window(&mut self) -> (asked: Result<NativeCall, SdlError>)
        ensures
            asked == old(self).handler_spec().ask_spec(NativeCall::HideWindow),
            final(self).handler_spec() == old(self).handler_spec(),
            final(self).title_spec() == old(self).title_spec(),
            final(self).size_spec() == old(self).size_spec(),
    {
        self.window.hide_window()
    }

    /// Asks to show the window.
    pub fn show(&mut self) -> (asked: Result<NativeCall, SdlError>)
        ensures
            asked == old(self).handler_spec().ask_spec(NativeCall::ShowWindow),
            final(self).handler_spec() == old(self).handler_spec(),
            final(self).title_spec() == old(self).title_spec(),
            final(self).size_spec() == old(self).size_spec(),
    {
        self.window.show()
    }

    /// Whether the window is open.
    pub fn is_open(&self) -> (open: bool)
        ensures
            open == self.handler_spec().is_open_spec(),
    {
        self.window.is_open()
    }

    /// Marks the window open, as the last step of its making. A window
    /// that was closed stays closed. It returns whether the window is
    /// open now.
    pub fn mark_open(&mut self) -> (open: bool)
        ensures
            final(self).handler_spec().state_spec() == WindowHandler::marked_open(
                old(self).handler_spec().state_spec(),
            ),
            open == final(self).handler_spec().is_open_spec(),
            final(self).handler_spec().id_spec() == old(self).handler_spec().id_spec(),
            final(self).handler_spec().system_spec() == old(self).handler_spec().system_spec(),
            final(self).title_spec() == old(self).title_spec(),
            final(self).size_spec() == old(self).size_spec(),
    {
        self.window.mark_open()
    }

    /// Closes the window for good.
    pub fn close(&mut self)
        ensures
            final(self).handler_spec().state_spec() == WindowState::Closed,
            final(self).handler_spec().id_spec() == old(self).handler_spec().id_spec(),
            final(self).handler_spec().system_spec() == old(self).handler_spec().system_spec(),
            final(self).title_spec() == old(self).title_spec(),
            final(self).size_spec() == old(self).size_spec(),
    {
        self.window.close();
    }

    /// Whether `event` asks to close this window or says that it is gone.
    pub open spec fn closes(self, event: RawEvent) -> bool {
        match event {
            RawEvent::WindowClose { id } => id == self.handler_spec().id_spec(),
            RawEvent::Window { window_id, event: crate::event::WindowEvent::Destroyed } => window_id
                == self.handler_spec().id_spec(),
            _ => false,
        }
    }

    /// Takes in an event: one that asks to close this window, or says
    /// that it is gone, closes it; every other event changes nothing. It
    /// returns whether the window is closed by this event.
    pub fn process(&mut self, event: &RawEvent) -> (closed: bool)
        ensures
            closed == old(self).closes(*event),
            final(self).handler_spec().state_spec() == if closed {
                WindowState::Closed
            } else {
                old(self).handler_spec().state_spec()
            },
            final(self).handler_spec().id_spec() == old(self).handler_spec().id_spec(),
            final(self).handler_spec().system_spec() == old(self).handler_spec().system_spec(),
            final(self).title_spec() == old(self).title_spec(),
            final(self).size_spec() == old(self).size_spec(),
    {
        let mine = self.window.id();
        let closed = match event {
            RawEvent::WindowClose { id } => *id == mine,
            RawEvent::Window { window_id, event: crate::event::WindowEvent::Destroyed } => *window_id
                == mine,
            _ => false,
        };
        if closed {
            self.window.close();
        }
        closed
    }

    /// Keeps `size` as the size of the window.
    pub fn keep_size(&mut self, size: Size)
        ensures
            final(self).size_spec() == size,
            final(self).handler_spec() == old(self).handler_spec(),
            final(self).title_spec() == old(self).title_spec(),
    {
        self.size = size;
    }

    /// Gives the window up: the window itself, to be destroyed.
    pub fn into_handler(self) -> (handler: WindowHandler)
        ensures
            handler == self.handler_spec(),
    {
        self.window
    }
}

impl HasId for Window {
    type Id = WindowId;

    fn id(&self) -> (id: WindowId)
        ensures
            id == self.handler_spec().id_spec(),
    {
        self.window.id()
    }
}

impl HasSize for Window {
    type SizeType = Size;

    /// The size, as it was last learnt; nothing is asked of the platform.
    fn try_get_size(&mut self) -> (size: Size)
        ensures
            size == old(self).size_spec(),
            final(self).size_spec() == old(self).size_spec(),
            final(self).handler_spec() == old(self).handler_spec(),
            final(self).title_spec() == old(self).title_spec(),
    {
        self.size
    }
}

} // verus!
