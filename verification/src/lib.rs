//! Process control and stack unwinding for an interactive debugger.
//!
//! The library decides; the program around it reads commands, starts the
//! target and prints. Every call into the operating system goes through the
//! small functions of [`os`], and everything that is done with what those
//! calls return is a verified function of the reply.
//!
//! - [`inferior`]: the traced process, its lifecycle phase, and the
//!   operations that probe, resume, kill and read it.
//! - [`backtrace`]: the stack walker.
//! - [`symbols`]: the table that resolves addresses to functions and lines.
//! - [`debugger`]: the command loop, one round at a time.
//! - [`command`]: the commands and how a line of input becomes one.
//! - [`render`]: the lines that the operator reads.
//! - [`status`], [`error`]: lifecycle events and errors.

pub mod backtrace;
pub mod command;
pub mod debugger;
pub mod error;
pub mod inferior;
pub mod os;
pub mod render;
pub mod status;
pub mod symbols;
