//! The application loop of an interactive runtime: a portable event model,
//! event dispatch, a fixed-step ticker, and the lifecycle of a window and
//! the drawable surface bound to it.

pub mod application;
pub mod building;
pub mod error;
pub mod event;
pub mod event_dispatcher;
pub mod fallible;
pub mod frect;
pub mod id;
pub mod keycode;
pub mod keymod;
pub mod mouse;
pub mod playground;
pub mod rect;
pub mod scancode;
pub mod sdl_event;
pub mod sdl_event_source;
pub mod spatial;
pub mod tickable;
pub mod ticker;
pub mod time_service;
pub mod wgpu_context;
pub mod wgpu_window;
pub mod window;
