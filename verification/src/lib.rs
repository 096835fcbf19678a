//! A command-line shim that negates or swaps the command it is asked to
//! run: it maps an argument vector to a conclusion, either an exit
//! status or a replacement command line to execute in place of the
//! current process.

pub mod conclusion;
pub mod laws;
pub mod resolver;

pub use conclusion::Conclusion;
