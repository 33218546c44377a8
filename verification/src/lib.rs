//! The greeting command of a desktop shell, with its result proved.
//!
//! The shell itself (window, plugins, event loop) lives outside this crate and
//! calls [`greet`] whenever the frontend invokes the command.

pub mod greeting;

pub use greeting::greet;
