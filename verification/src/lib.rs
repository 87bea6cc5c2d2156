//! Argument gathering and prompt assembly for a command-line front end to a
//! local text-generation service.
//!
//! The crate turns a list of command-line tokens and the text piped on
//! standard input into the request that is sent to the service, and turns the
//! service's reply into what the program prints. All input and output is left
//! to the caller.

pub mod text;
pub mod arguments;
pub mod prompt;
pub mod dispatch;
