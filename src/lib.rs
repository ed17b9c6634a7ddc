//! Typed access to the `asdf` version manager's command line.

pub mod command;
pub mod error;
pub mod text;
pub mod plugins;
pub mod packages;
pub mod utils;

pub use error::{Error, IoKind, Result, SpawnError};
