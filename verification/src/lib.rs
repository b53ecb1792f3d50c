//! An interactive command console that can take its next command either from
//! a terminal line or from a pre-loaded automation file, under a strict state
//! machine that decides which source is legal at any moment.

mod command;
mod console;
mod error;
pub mod interface;
mod status;
mod text;
mod tree;

pub use command::GenericCmd;
pub use console::Console;
pub use error::DataError;
pub use status::ConsoleStatus;
pub use tree::{ExecuteAssets, ExecuteFile, SubCmd};
