//! The heart of a sample application.

use vstd::prelude::*;
use std::convert::Infallible;
use crate::event::{AppEvent, Event, RawEvent};
use crate::event_dispatcher::EventHandler;
use crate::fallible::Fallible;
use crate::tickable::{Phase, Tickable};

verus! {

/// The heart of a sample application: it runs until it is told to stop.
#[derive(Debug, Clone, Copy, PartialEq, Eq, Structural)]
pub struct Main {
    pub running: bool,
}

/// Whether `event` tells an application to stop: the user asked to quit,
/// the operating system ends the application, or a window is to close.
pub open spec fn asks_to_stop(event: RawEvent) -> bool {
    ||| event is Quit
    ||| event == (RawEvent::App { event: AppEvent::Terminating })
    ||| event is WindowClose
}

impl Main {
    /// An application that runs.
    pub fn new() -> (main: Main)
        ensures
            main.running,
    {
        Main { running: true }
    }
}

impl Fallible for Main {
    type Error = Infallible;
}

impl Tickable for Main {
    /// No phase changes anything and none fails.
    open spec fn phase(
        pre: Self,
        phase: Phase,
        elapse_ns: u64,
        post: Self,
        outcome: Result<(), Infallible>,
    ) -> bool {
        post == pre && outcome is Ok
    }

    fn pre_update(&mut self, elapse_ns: u64) -> (outcome: Result<(), Infallible>) {
        Ok(())
    }

    fn fixed_update(&mut self, elapse_ns: u64) -> (outcome: Result<(), Infallible>) {
        Ok(())
    }

    fn update(&mut self, elapse_ns: u64) -> (outcome: Result<(), Infallible>) {
        Ok(())
    }

    fn post_update(&mut self, elapse_ns: u64) -> (outcome: Result<(), Infallible>) {
        Ok(())
    }
}

impl EventHandler<Event> for Main {
    /// Every event is consumed; one that asks to stop ends the run.
    open spec fn handles(pre: Self, event: Event, post: Self, outcome: Result<bool, Infallible>) -> bool {
        &&& outcome == Ok::<bool, Infallible>(true)
        &&& post.running == (pre.running && !asks_to_stop(event.raw))
    }

    fn handle(&mut self, event: &Event) -> (outcome: Result<bool, Infallible>) {
        match event.raw {
            RawEvent::Quit => {
                self.running = false;
            },
            RawEvent::App { event: AppEvent::Terminating } => {
                self.running = false;
            },
            RawEvent::WindowClose { .. } => {
                self.running = false;
            },
            _ => {},
        }
        Ok(true)
    }
}

} // verus!
