//! The order in which the means to draw are acquired.

use vstd::prelude::*;
use crate::wgpu_window::WgpuWindowError;

verus! {

/// Why the means to draw could not be acquired.
#[derive(Debug, Clone, Copy, PartialEq, Eq, Structural)]
pub enum ContextError {
    /// No adapter answered the request.
    RequestAdapterError,
    /// The adapter gave no device.
    RequestDeviceError,
    /// The surface could not be created on the window.
    CreateSurfaceError,
    /// The window could not be bound to its surface.
    WgpuWindowError(WgpuWindowError),
}

/// One thing to acquire on the way to drawing.
#[derive(Debug, Clone, Copy, PartialEq, Eq, Structural)]
pub enum ContextStep {
    /// The instance, the entry to the graphics system. It does not fail.
    Instance,
    /// The surface on the window.
    Surface,
    /// An adapter; one that can draw on the surface where there is one.
    Adapter { compatible_with_surface: bool },
    /// The device and its queue.
    Device,
    /// The window bound to the surface, set up for the device.
    Window,
}

/// How acquiring the means to draw goes on.
#[derive(Debug, Clone, Copy, PartialEq, Eq, Structural)]
pub enum ContextProgress {
    /// This is acquired next.
    Acquire { step: ContextStep },
    /// Everything is there.
    Ready,
    /// What was acquired last was not to be had.
    Failed { error: ContextError },
}

/// The means to draw: what is acquired for them, and in which order.
#[derive(Debug, Clone, Copy, PartialEq, Eq, Structural)]
pub struct WgpuRenderContext {
    with_window: bool,
    acquired: usize,
}

impl WgpuRenderContext {
    /// Whether a window is bound to a surface on the way.
    pub closed spec fn with_window_spec(self) -> bool {
        self.with_window
    }

    /// The number of things acquired so far.
    pub closed spec fn acquired_spec(self) -> nat {
        self.acquired as nat
    }

    /// What is acquired, in order. Without a window: the instance, an
    /// adapter, the device. With one: the instance, the surface, an
    /// adapter that can draw on it, the device, and last the window bound
    /// to the surface.
    pub open spec fn steps_spec(with_window: bool) -> Seq<ContextStep> {
        if with_window {
            seq![
                ContextStep::Instance,
                ContextStep::Surface,
                ContextStep::Adapter { compatible_with_surface: true },
                ContextStep::Device,
                ContextStep::Window,
            ]
        } else {
            seq![
                ContextStep::Instance,
                ContextStep::Adapter { compatible_with_surface: false },
                ContextStep::Device,
            ]
        }
    }

    /// The error that says that `step` was not to be had. Binding the
    /// window fails for a reason of its own, which `window` holds.
    pub open spec fn error_spec(step: ContextStep, window: WgpuWindowError) -> ContextError {
        match step {
            ContextStep::Instance => ContextError::RequestAdapterError,
            ContextStep::Surface => ContextError::CreateSurfaceError,
            ContextStep::Adapter { .. } => ContextError::RequestAdapterError,
            ContextStep::Device => ContextError::RequestDeviceError,
            ContextStep::Window => ContextError::WgpuWindowError(window),
        }
    }

    /// The acquisition of the means to draw without a window, at its
    /// beginning.
    pub fn new() -> (context: WgpuRenderContext)
        ensures
            !context.with_window_spec(),
            context.acquired_spec() == 0,
    {
        WgpuRenderContext { with_window: false, acquired: 0 }
    }

    /// The acquisition of the means to draw on a window, at its
    /// beginning.
    pub fn new_with_window() -> (context: WgpuRenderContext)
        ensures
            context.with_window_spec(),
            context.acquired_spec() == 0,
    {
        WgpuRenderContext { with_window: true, acquired: 0 }
    }

    /// What is acquired first.
    pub fn first(&self) -> (step: ContextStep)
        ensures
            step == WgpuRenderContext::steps_spec(self.with_window_spec())[0],
    {
        ContextStep::Instance
    }

    /// Goes on after the last thing asked for was acquired (`outcome` is
    /// `Ok`) or was not to be had (`outcome` holds the reason where the
    /// window could not be bound; else it is of no account).
    ///
    /// The things are acquired in order; the first that is not to be had
    /// ends it, and nothing after it is asked for. Once everything is
    /// there, nothing more is asked for.
    pub open spec fn advance_spec(self, outcome: Result<(), WgpuWindowError>) -> (
        WgpuRenderContext,
        ContextProgress,
    ) {
        let steps = WgpuRenderContext::steps_spec(self.with_window_spec());
        let at = self.acquired_spec() as int;
        if at >= steps.len() {
            (self, ContextProgress::Ready)
        } else {
            match outcome {
                Err(reason) => (
                    self,
                    ContextProgress::Failed {
                        error: WgpuRenderContext::error_spec(steps[at], reason),
                    },
                ),
                Ok(_) => (
                    WgpuRenderContext::at_spec(self.with_window_spec(), (at + 1) as nat),
                    if at + 1 == steps.len() {
                        ContextProgress::Ready
                    } else {
                        ContextProgress::Acquire { step: steps[at + 1] }
                    },
                ),
            }
        }
    }

    /// The acquisition with `acquired` things acquired.
    pub closed spec fn at_spec(with_window: bool, acquired: nat) -> WgpuRenderContext {
        WgpuRenderContext { with_window, acquired: acquired as usize }
    }

    /// Goes on after the last thing asked for was acquired or was not to
    /// be had.
    pub fn advance(&mut self, outcome: Result<(), WgpuWindowError>) -> (progress: ContextProgress)
        ensures
            (*final(self), progress) == old(self).advance_spec(outcome),
    {
        let total: usize = if self.with_window {
            5
        } else {
            3
        };
        if self.acquired >= total {
            return ContextProgress::Ready;
        }
        let current = self.step_at(self.acquired);
        match outcome {
            Err(reason) => ContextProgress::Failed {
                error: match current {
                    ContextStep::Instance => ContextError::RequestAdapterError,
                    ContextStep::Surface => ContextError::CreateSurfaceError,
                    ContextStep::Adapter { .. } => ContextError::RequestAdapterError,
                    ContextStep::Device => ContextError::RequestDeviceError,
                    ContextStep::Window => ContextError::WgpuWindowError(reason),
                },
            },
            Ok(_) => {
                self.acquired = self.acquired + 1;
                if self.acquired == total {
                    ContextProgress::Ready
                } else {
                    ContextProgress::Acquire { step: self.step_at(self.acquired) }
                }
            },
        }
    }

    /// An acquisition is what it acquires and how far it has come.
    pub proof fn lemma_at(with_window: bool, acquired: nat)
        requires
            acquired <= usize::MAX,
        ensures
            WgpuRenderContext::at_spec(with_window, acquired).with_window_spec() == with_window,
            WgpuRenderContext::at_spec(with_window, acquired).acquired_spec() == acquired,
    {
    }

    fn step_at(&self, at: usize) -> (step: ContextStep)
        requires
            at < WgpuRenderContext::steps_spec(self.with_window_spec()).len(),
        ensures
            step == WgpuRenderContext::steps_spec(self.with_window_spec())[at as int],
    {
        if self.with_window {
            match at {
                0 => ContextStep::Instance,
                1 => ContextStep::Surface,
                2 => ContextStep::Adapter { compatible_with_surface: true },
                3 => ContextStep::Device,
                _ => ContextStep::Window,
            }
        } else {
            match at {
                0 => ContextStep::Instance,
                1 => ContextStep::Adapter { compatible_with_surface: false },
                _ => ContextStep::Device,
            }
        }
    }

    /// The surface is created before the adapter is asked for, so that
    /// the adapter can be one that draws on it, and the window is bound
    /// last, when the device is there.
    pub proof fn lemma_surface_before_adapter()
        ensures
            WgpuRenderContext::steps_spec(true)[1] == ContextStep::Surface,
            WgpuRenderContext::steps_spec(true)[2] == (ContextStep::Adapter {
                compatible_with_surface: true,
            }),
            WgpuRenderContext::steps_spec(true).last() == ContextStep::Window,
    {
    }
}

} // verus!
