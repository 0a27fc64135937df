//! Plans for the tool that builds, formats and checks a project: what to
//! run, in which order, and when to stop. Running it is the caller's part.

pub mod actions;
pub mod commands;
pub mod configuration;
pub mod hooks;
pub mod paths;
pub mod platform;
pub mod run;
pub mod search;
pub mod which;
