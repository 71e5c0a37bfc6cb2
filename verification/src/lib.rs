//! Core of a browser file hand-in front-end: a byte-size formatter for
//! progress display, a transfer session state machine with progress,
//! completion and abort handling, the controller that drives one upload
//! affordance, and the pure helpers (URL builders, domain enums) around
//! them. The surrounding page performs the actual I/O and hands every event
//! to the library as a plain value.

pub mod components;
pub mod controller;
pub mod digits;
pub mod progress;
pub mod service;
pub mod session;
pub mod text;
