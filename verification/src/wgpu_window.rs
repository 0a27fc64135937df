//! A window with the surface that draws on it: how the surface is set
//! up, how it follows the window's size, and in which order the two are
//! given up.

use vstd::prelude::*;
use crate::error::SdlError;
use crate::event::{RawEvent, WindowEvent};
use crate::rect::Size;
use crate::window::{NativeCall, Window, WindowState, WindowSystem};

verus! {

/// Why a window could not be given a surface to draw on, or why an
/// operation on such a window failed.
#[derive(Debug, Clone, Copy, PartialEq, Eq, Structural)]
pub enum WgpuWindowError {
    /// The platform failed, or the window is not open.
    SdlError(SdlError),
    /// The surface could not be created on the window.
    CreateSurfaceError,
    /// The surface offers no pixel format with this adapter.
    NoSurfaceFormat,
    /// The surface offers no alpha mode with this adapter.
    NoAlphaMode,
}

/// What the textures of a surface are used for.
#[derive(Debug, Clone, Copy, PartialEq, Eq, Structural)]
pub enum TextureUsage {
    /// They are drawn on.
    RenderAttachment,
}

/// How the frames of a surface are handed to the display.
#[derive(Debug, Clone, Copy, PartialEq, Eq, Structural)]
pub enum PresentMode {
    /// In step with the display's refresh, in the order they were drawn.
    Fifo,
}

/// The most frames that are drawn ahead of the display.
pub const FRAME_LATENCY: u32 = 2;

/// What a surface can do with a given adapter: the pixel formats and
/// alpha modes it offers, the preferred one first.
#[derive(Debug)]
pub struct SurfaceCapabilities<F, A> {
    pub formats: Vec<F>,
    pub alpha_modes: Vec<A>,
}

/// How a surface is set up.
#[derive(Debug)]
pub struct SurfaceConfig<F, A> {
    pub usage: TextureUsage,
    pub format: F,
    pub width: u32,
    pub height: u32,
    pub present_mode: PresentMode,
    pub alpha_mode: A,
    pub view_formats: Vec<F>,
    pub desired_maximum_frame_latency: u32,
}

impl<F, A> SurfaceConfig<F, A> {
    /// Whether this is the setup for a window of the size `size` with
    /// the format `format` and the alpha mode `alpha_mode`: the surface is
    /// drawn on, in step with the display, at most [`FRAME_LATENCY`]
    /// frames ahead, with no other view format, and as large as the
    /// window but at least one pixel each way.
    pub open spec fn is_for(self, format: F, alpha_mode: A, size: Size) -> bool {
        &&& self.usage == TextureUsage::RenderAttachment
        &&& self.format == format
        &&& self.width == size.at_least_one_spec().width
        &&& self.height == size.at_least_one_spec().height
        &&& self.present_mode == PresentMode::Fifo
        &&& self.alpha_mode == alpha_mode
        &&& self.view_formats@.len() == 0
        &&& self.desired_maximum_frame_latency == FRAME_LATENCY
    }
}

/// The setup of a surface for a window of the size `size`, with the
/// preferred format and alpha mode of `capabilities`. It fails where the
/// surface offers no format or no alpha mode.
pub fn surface_config<F: Copy, A: Copy>(capabilities: &SurfaceCapabilities<F, A>, size: Size) -> (config:
    Result<SurfaceConfig<F, A>, WgpuWindowError>)
    ensures
        capabilities.formats@.len() == 0 ==> config is Err && config->Err_0
            == WgpuWindowError::NoSurfaceFormat,
        capabilities.formats@.len() > 0 && capabilities.alpha_modes@.len() == 0 ==> config is Err
            && config->Err_0 == WgpuWindowError::NoAlphaMode,
        capabilities.formats@.len() > 0 && capabilities.alpha_modes@.len() > 0 ==> config is Ok
            && config->Ok_0.is_for(capabilities.formats@[0], capabilities.alpha_modes@[0], size),
{
    if capabilities.formats.len() == 0 {
        return Err(WgpuWindowError::NoSurfaceFormat);
    }
    if capabilities.alpha_modes.len() == 0 {
        return Err(WgpuWindowError::NoAlphaMode);
    }
    let size = size.at_least_one();
    Ok(
        SurfaceConfig {
            usage: TextureUsage::RenderAttachment,
            format: capabilities.formats[0],
            width: size.width as u32,
            height: size.height as u32,
            present_mode: PresentMode::Fifo,
            alpha_mode: capabilities.alpha_modes[0],
            view_formats: Vec::new(),
            desired_maximum_frame_latency: FRAME_LATENCY,
        },
    )
}

/// What an event did to a window with its surface.
#[derive(Debug, Clone, Copy, PartialEq, Eq, Structural)]
pub enum Processed {
    /// Nothing: the event is not about this window, or of no account to
    /// it.
    Ignored,
    /// The window was closed.
    Closed,
    /// The size was taken in; the surface is to be set up anew.
    Resized,
}

/// One thing to give up when a window with its surface goes.
#[derive(Debug, Clone, PartialEq, Eq)]
pub enum Release {
    /// The setup of the surface.
    SurfaceConfiguration,
    /// The surface. It draws on the window, so it goes before the window.
    Surface,
    /// The hold on the device.
    Device,
    /// The hold on the queue.
    Queue,
    /// Something to ask of the platform to destroy the window.
    Native { call: NativeCall },
}

/// The surface was still there when the window was destroyed.
#[derive(Debug, Clone, Copy, PartialEq, Eq, Structural)]
pub struct WindowDestroyedFirst {
    /// The place in the record at which the window was destroyed.
    pub at: usize,
}

/// Whether `release` destroys the window.
pub open spec fn destroys_window(release: Release) -> bool {
    release == (Release::Native { call: NativeCall::DestroyWindow })
}

/// Whether the record `releases` shows a window destroyed at the place
/// `at` with its surface not released before.
pub open spec fn window_destroyed_first(releases: Seq<Release>, at: int) -> bool {
    &&& 0 <= at < releases.len()
    &&& destroys_window(releases[at])
    &&& forall|i: int| 0 <= i < at ==> releases[i] != Release::Surface
}

/// Checks a record of what was given up, in the order in which it went:
/// a window must not be destroyed unless its surface was released
/// before. The first place at which one is, is reported.
pub fn check_release_order(releases: &Vec<Release>) -> (checked: Result<(), WindowDestroyedFirst>)
    ensures
        checked is Ok ==> forall|at: int| !window_destroyed_first(releases@, at),
        checked matches Err(defect) ==> window_destroyed_first(releases@, defect.at as int)
            && forall|at: int| 0 <= at < defect.at ==> !window_destroyed_first(releases@, at),
{
    let mut i: usize = 0;
    while i < releases.len()
        invariant
            i <= releases.len(),
            forall|j: int| 0 <= j < i ==> releases@[j] != Release::Surface,
            forall|j: int| 0 <= j < i ==> !destroys_window(releases@[j]),
        decreases releases.len() - i,
    {
        match &releases[i] {
            Release::Surface => {
                proof {
                    assert forall|at: int| !window_destroyed_first(releases@, at) by {
                        if window_destroyed_first(releases@, at) {
                            if at < i {
                                assert(!destroys_window(releases@[at]));
                            } else {
                                assert(releases@[i as int] == Release::Surface);
                            }
                        }
                    }
                }
                return Ok(());
            },
            Release::Native { call: NativeCall::DestroyWindow } => {
                return Err(WindowDestroyedFirst { at: i });
            },
            _ => {},
        }
        i += 1;
    }
    Ok(())
}

/// A window with the surface that draws on it.
///
/// The surface is a view into the window: it is set up after the window
/// is there and it is given up before the window is destroyed.
#[derive(Debug)]
pub struct WgpuWindow<F, A> {
    window: Window,
    config: SurfaceConfig<F, A>,
    stale: bool,
}

impl<F, A> WgpuWindow<F, A> {
    /// The window.
    pub closed spec fn window_spec(self) -> Window {
        self.window
    }

    /// The setup of the surface.
    pub closed spec fn config_spec(self) -> SurfaceConfig<F, A> {
        self.config
    }

    /// Whether the surface is to be set up anew before the next frame is
    /// drawn, because the size has changed.
    pub closed spec fn stale_spec(self) -> bool {
        self.stale
    }

    /// What holds of a window with a surface from its making on: the
    /// surface is as large as the size that is kept of the window, but at
    /// least one pixel each way.
    pub closed spec fn inv(self) -> bool {
        &&& self.config.width == self.window.size_spec().at_least_one_spec().width
        &&& self.config.height == self.window.size_spec().at_least_one_spec().height
    }

}

/// Why a window in the state `state` cannot be bound to a surface that
/// offers `formats` pixel formats and `alpha_modes` alpha modes, if it
/// cannot: a closed window is not bound at all, and a surface needs a
/// format and an alpha mode.
pub open spec fn binding_error(state: WindowState, formats: nat, alpha_modes: nat) -> Option<
    WgpuWindowError,
> {
    if state == WindowState::Closed {
        Some(WgpuWindowError::SdlError(SdlError::ClosedWindow))
    } else if formats == 0 {
        Some(WgpuWindowError::NoSurfaceFormat)
    } else if alpha_modes == 0 {
        Some(WgpuWindowError::NoAlphaMode)
    } else {
        None
    }
}

impl<F: Copy, A: Copy> WgpuWindow<F, A> {
    /// Whether `bound` is the window `window` bound to a surface that
    /// offers `capabilities`: the surface is set up for the window's size,
    /// at least one pixel each way, which is also the size kept from then
    /// on, and the window is open.
    pub open spec fn binds(
        bound: WgpuWindow<F, A>,
        window: Window,
        capabilities: SurfaceCapabilities<F, A>,
    ) -> bool {
        &&& capabilities.formats@.len() > 0
        &&& capabilities.alpha_modes@.len() > 0
        &&& bound.config_spec().is_for(
            capabilities.formats@[0],
            capabilities.alpha_modes@[0],
            window.size_spec(),
        )
        &&& bound.window_spec().size_spec() == window.size_spec().at_least_one_spec()
        &&& bound.window_spec().handler_spec().state_spec() == WindowState::Open
        &&& bound.window_spec().handler_spec().id_spec() == window.handler_spec().id_spec()
        &&& bound.window_spec().handler_spec().system_spec()
            == window.handler_spec().system_spec()
        &&& bound.window_spec().title_spec() == window.title_spec()
        &&& !bound.stale_spec()
        &&& bound.inv()
    }

    /// Binds the window to a surface that exists already and offers
    /// `capabilities`: the surface is set up for the window's size, at
    /// least one pixel each way, which is also the size kept from then on;
    /// as the last step the window is marked open. A window that was
    /// closed is not bound.
    pub fn from_window_and_surface(window: Window, capabilities: &SurfaceCapabilities<F, A>) -> (bound:
        Result<WgpuWindow<F, A>, WgpuWindowError>)
        ensures
            match binding_error(
                window.handler_spec().state_spec(),
                capabilities.formats@.len(),
                capabilities.alpha_modes@.len(),
            ) {
                Some(error) => bound is Err && bound->Err_0 == error,
                None => bound is Ok && WgpuWindow::binds(bound->Ok_0, window, *capabilities),
            },
    {
        let mut window = window;
        match window.window().state() {
            WindowState::Closed => {
                return Err(WgpuWindowError::SdlError(SdlError::ClosedWindow));
            },
            _ => {},
        }
        let size = window.get_size().at_least_one();
        let config = surface_config(capabilities, size)?;
        window.keep_size(size);
        window.mark_open();
        Ok(WgpuWindow { window, config, stale: false })
    }

    /// Binds the window to a surface that was just asked for:
    /// `surface_created` says whether the platform made it. Where it did,
    /// this is [`WgpuWindow::from_window_and_surface`]. A window that was
    /// closed is not bound, whatever became of the surface.
    pub fn from_window(
        window: Window,
        surface_created: bool,
        capabilities: &SurfaceCapabilities<F, A>,
    ) -> (bound: Result<WgpuWindow<F, A>, WgpuWindowError>)
        ensures
            match (if window.handler_spec().state_spec() != WindowState::Closed
                && !surface_created {
                Some(WgpuWindowError::CreateSurfaceError)
            } else {
                binding_error(
                    window.handler_spec().state_spec(),
                    capabilities.formats@.len(),
                    capabilities.alpha_modes@.len(),
                )
            }) {
                Some(error) => bound is Err && bound->Err_0 == error,
                None => bound is Ok && WgpuWindow::binds(bound->Ok_0, window, *capabilities),
            },
    {
        match window.window().state() {
            WindowState::Closed => {
                return Err(WgpuWindowError::SdlError(SdlError::ClosedWindow));
            },
            _ => {},
        }
        if !surface_created {
            return Err(WgpuWindowError::CreateSurfaceError);
        }
        WgpuWindow::from_window_and_surface(window, capabilities)
    }

    /// The window.
    pub fn window(&self) -> (window: &Window)
        ensures
            *window == self.window_spec(),
    {
        &self.window
    }

    /// The setup of the surface.
    pub fn config(&self) -> (config: &SurfaceConfig<F, A>)
        ensures
            *config == self.config_spec(),
            self.inv() ==> config.width >= 1 && config.height >= 1,
    {
        &self.config
    }

    /// The size to draw at: that of the surface.
    pub fn size(&self) -> (size: Size)
        ensures
            size == self.window_spec().size_spec().at_least_one_spec(),
            self.inv() ==> size.width == self.config_spec().width && size.height
                == self.config_spec().height,
            size.width >= 1,
            size.height >= 1,
    {
        self.window.get_size().at_least_one()
    }

    /// Whether the surface is to be set up anew before the next frame is
    /// drawn.
    pub fn needs_configure(&self) -> (stale: bool)
        ensures
            stale == self.stale_spec(),
    {
        self.stale
    }

    /// Takes in a new size of the window. The size kept is `size` but at
    /// least one pixel each way, the setup of the surface follows it, and
    /// the surface is to be set up anew. A window that is not open fails
    /// and keeps everything as it was.
    pub fn resize(&mut self, size: Size) -> (resized: Result<(), WgpuWindowError>)
        ensures
            old(self).inv() ==> final(self).inv(),
            old(self).window_spec().handler_spec().is_open_spec() ==> final(self).inv(),
            final(self).window_spec().handler_spec() == old(self).window_spec().handler_spec(),
            final(self).window_spec().title_spec() == old(self).window_spec().title_spec(),
            final(self).config_spec().format == old(self).config_spec().format,
            final(self).config_spec().alpha_mode == old(self).config_spec().alpha_mode,
            final(self).config_spec().usage == old(self).config_spec().usage,
            final(self).config_spec().present_mode == old(self).config_spec().present_mode,
            final(self).config_spec().view_formats == old(self).config_spec().view_formats,
            final(self).config_spec().desired_maximum_frame_latency == old(
                self,
            ).config_spec().desired_maximum_frame_latency,
            if old(self).window_spec().handler_spec().is_open_spec() {
                &&& resized is Ok
                &&& final(self).window_spec().size_spec() == size.at_least_one_spec()
                &&& final(self).config_spec().width == size.at_least_one_spec().width
                &&& final(self).config_spec().height == size.at_least_one_spec().height
                &&& final(self).stale_spec()
            } else {
                &&& resized == Err::<(), WgpuWindowError>(
                    WgpuWindowError::SdlError(SdlError::ClosedWindow),
                )
                &&& final(self).window_spec().size_spec() == old(self).window_spec().size_spec()
                &&& final(self).config_spec().width == old(self).config_spec().width
                &&& final(self).config_spec().height == old(self).config_spec().height
                &&& final(self).stale_spec() == old(self).stale_spec()
            },
    {
        if !self.window.is_open() {
            return Err(WgpuWindowError::SdlError(SdlError::ClosedWindow));
        }
        let size = size.at_least_one();
        self.window.keep_size(size);
        self.config.width = size.width as u32;
        self.config.height = size.height as u32;
        self.stale = true;
        Ok(())
    }

    /// The size in pixels that `event` reports of the window with the
    /// identifier `id`, if it reports one.
    pub open spec fn new_size(id: u64, event: RawEvent) -> Option<Size> {
        match event {
            RawEvent::Window { window_id, event: WindowEvent::PixelSizeChanged { size } } => {
                if window_id == id {
                    Some(Size { width: size.x, height: size.y })
                } else {
                    None
                }
            },
            _ => None,
        }
    }

    /// Takes in an event. One that asks to close this window, or says
    /// that it is gone, closes it. One that reports a new size in pixels
    /// of this window, while it is open, has the size taken in as
    /// [`WgpuWindow::resize`] does. Every other event changes nothing.
    pub fn process(&mut self, event: &RawEvent) -> (processed: Processed)
        ensures
            old(self).inv() ==> final(self).inv(),
            final(self).window_spec().handler_spec().id_spec() == old(
                self,
            ).window_spec().handler_spec().id_spec(),
            final(self).window_spec().title_spec() == old(self).window_spec().title_spec(),
            final(self).config_spec().format == old(self).config_spec().format,
            final(self).config_spec().alpha_mode == old(self).config_spec().alpha_mode,
            ({
                let window = old(self).window_spec();
                let id = window.handler_spec().id_spec();
                if window.closes(*event) {
                    &&& processed == Processed::Closed
                    &&& final(self).window_spec().handler_spec().state_spec() == WindowState::Closed
                    &&& final(self).window_spec().size_spec() == window.size_spec()
                    &&& final(self).config_spec() == old(self).config_spec()
                    &&& final(self).stale_spec() == old(self).stale_spec()
                } else {
                    &&& final(self).window_spec().handler_spec().state_spec()
                        == window.handler_spec().state_spec()
                    &&& match WgpuWindow::<F, A>::new_size(id, *event) {
                        Some(size) => if window.handler_spec().is_open_spec() {
                            &&& processed == Processed::Resized
                            &&& final(self).window_spec().size_spec() == size.at_least_one_spec()
                            &&& final(self).config_spec().width == size.at_least_one_spec().width
                            &&& final(self).config_spec().height
                                == size.at_least_one_spec().height
                            &&& final(self).stale_spec()
                        } else {
                            &&& processed == Processed::Ignored
                            &&& final(self).window_spec().size_spec() == window.size_spec()
                            &&& final(self).config_spec().width == old(self).config_spec().width
                            &&& final(self).config_spec().height == old(self).config_spec().height
                            &&& final(self).stale_spec() == old(self).stale_spec()
                        },
                        None => {
                            &&& processed == Processed::Ignored
                            &&& final(self).window_spec().size_spec() == window.size_spec()
                            &&& final(self).config_spec() == old(self).config_spec()
                            &&& final(self).stale_spec() == old(self).stale_spec()
                        },
                    }
                }
            }),
    {
        if self.window.process(event) {
            return Processed::Closed;
        }
        let mine = self.window.id();
        match event {
            RawEvent::Window { window_id, event: WindowEvent::PixelSizeChanged { size } } => {
                if *window_id == mine {
                    match self.resize(Size::new(size.x, size.y)) {
                        Ok(()) => Processed::Resized,
                        Err(_) => Processed::Ignored,
                    }
                } else {
                    Processed::Ignored
                }
            },
            _ => Processed::Ignored,
        }
    }

    /// Notes that the surface was set up anew with the present setup.
    pub fn configured(&mut self)
        ensures
            !final(self).stale_spec(),
            final(self).window_spec() == old(self).window_spec(),
            final(self).config_spec() == old(self).config_spec(),
            final(self).inv() == old(self).inv(),
    {
        self.stale = false;
    }

    /// Closes the window for good; the surface stays until the whole is
    /// given up.
    pub fn close(&mut self)
        ensures
            final(self).window_spec().handler_spec().state_spec() == WindowState::Closed,
            final(self).window_spec().handler_spec().id_spec() == old(
                self,
            ).window_spec().handler_spec().id_spec(),
            final(self).window_spec().size_spec() == old(self).window_spec().size_spec(),
            final(self).window_spec().title_spec() == old(self).window_spec().title_spec(),
            final(self).config_spec() == old(self).config_spec(),
            final(self).stale_spec() == old(self).stale_spec(),
            final(self).inv() == old(self).inv(),
    {
        self.window.close();
    }

    /// What is given up when the whole goes, in order: the reverse of the
    /// order in which it was made.
    pub open spec fn teardown_spec(self) -> Seq<Release> {
        seq![Release::SurfaceConfiguration, Release::Surface, Release::Device, Release::Queue]
            + self.window_spec().handler_spec().destroy_spec().map_values(
            |call: NativeCall| Release::Native { call },
        )
    }

    /// Gives up the window with its surface: what to release, in order.
    /// The setup and the surface go first, then the holds on device and
    /// queue, and the window is destroyed last.
    pub fn teardown(self) -> (releases: Vec<Release>)
        ensures
            releases@ == self.teardown_spec(),
    {
        let mut releases: Vec<Release> = Vec::new();
        releases.push(Release::SurfaceConfiguration);
        releases.push(Release::Surface);
        releases.push(Release::Device);
        releases.push(Release::Queue);
        let ghost wanted = self.teardown_spec();
        match self.window.window().system() {
            WindowSystem::AppKit => {
                releases.push(Release::Native { call: NativeCall::DestroyMetalView });
            },
            WindowSystem::Win32 => {},
        }
        releases.push(Release::Native { call: NativeCall::DestroyWindow });
        proof {
            assert(releases@ =~= wanted);
        }
        releases
    }

    /// The surface always goes before the window: in what a teardown
    /// releases, the surface is released once, the window is destroyed
    /// once and last, and the surface comes before the window. Such a
    /// record passes [`check_release_order`].
    pub proof fn lemma_surface_goes_before_window(self)
        ensures
            self.teardown_spec().len() >= 5,
            self.teardown_spec()[1] == Release::Surface,
            destroys_window(self.teardown_spec().last()),
            forall|i: int|
                0 <= i < self.teardown_spec().len() && i != 1 ==> self.teardown_spec()[i]
                    != Release::Surface,
            forall|i: int|
                0 <= i < self.teardown_spec().len() - 1 ==> !destroys_window(
                    self.teardown_spec()[i],
                ),
            forall|at: int| !window_destroyed_first(self.teardown_spec(), at),
    {
        let releases = self.teardown_spec();
        let calls = self.window_spec().handler_spec().destroy_spec();
        assert forall|at: int| !window_destroyed_first(releases, at) by {
            if window_destroyed_first(releases, at) {
                assert(at > 1);
                assert(releases[1] == Release::Surface);
            }
        }
    }
}

} // verus!
