//! Runs one command of a Lua command registry inside a fresh, sanitized Lua
//! sandbox, with the request's channel and invoker exposed read-only, and
//! turns the command's result into a string or a closed set of errors.

pub mod command;
pub mod error;
pub mod host;
mod lua;
pub mod registry;
pub mod sandbox;
pub mod state;
pub mod value;
