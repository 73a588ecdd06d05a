//! A command-line client for a remote game-server management API.
//!
//! The library decides everything that does not touch the network: it turns
//! the argument tokens into a command, a command into the one HTTP request
//! it stands for, and the server's replies into the text that is shown.
pub mod command;
pub mod render;
pub mod request;
pub mod stream;
pub mod text;

pub use command::{Cli, CommandError, Commands};
