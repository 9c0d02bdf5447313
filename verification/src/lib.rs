//! Core logic of a small telemetry display: a channel multiplexer that
//! arbitrates a shared hardware bus, a fixed-geometry text frame planner,
//! a timer-driven screen scheduler, and the registry of content screens.
//! Hardware sessions, collectors and process plumbing live outside; the
//! library works on plain values and states what each step does.

pub mod tca9548a;
pub mod text;
pub mod screens;
pub mod cli;
pub mod config;
pub mod errors;
pub mod screen_factory;
pub mod screen_manager;
pub mod display;
pub mod render_loop;
