//! The decisions of a launcher for the detached `nix` worker process, and the
//! byte formats it speaks, without any input or output of their own.
//!
//! A caller spawns the worker by performing, one after the other, the actions
//! that a [`spawn::Supervisor`] names and handing it their outcomes; the
//! process that the first fork makes does the same with a
//! [`child::Launcher`]. A failure on the forked side travels back as a
//! five-byte record ([`child::NewError`]). A spawn that succeeds yields a
//! [`Nix`], which builds the requests to send to the worker, judges its
//! responses, and is used up by the shutdown ([`conn::Shutdown`]).
//!
//! Integers cross both channels in the byte order of the machine, which
//! [`platform::Platform::native`] finds out once.

pub mod args;
pub mod bytes;
pub mod child;
pub mod conn;
pub mod error;
pub mod laws;
pub mod platform;
pub mod spawn;

pub use crate::args::NixConfig;
pub use crate::conn::Nix;
pub use crate::error::NewNixError;
