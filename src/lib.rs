//! The coordination core of an interactive terminal application: the
//! commands that flow through it, the shared application state they act on,
//! and the dispatch loop that drains commands and runs the suspend / quit
//! lifecycle of the render and input tasks.
//!
//! Everything here is a pure function of its inputs; the tasks, channels and
//! the terminal itself are driven by a runtime that performs the effects the
//! dispatch loop asks for and reports back what happened.

pub mod action;
pub mod dispatcher;
pub mod home;
pub mod tasks;

pub use action::{Action, Message};
pub use dispatcher::{Dispatcher, Effect, LoopEvent, Phase, Teardown};
pub use home::{Event, Home, Key, KeyCode, Mode};
pub use tasks::{input_after_send, InputEffect, RenderEffect, RenderInput, RenderPhase, RenderTask};
