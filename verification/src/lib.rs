//! Toolchain lifecycle core of a toolchain version manager.
//!
//! The library resolves a toolchain name to its installation directory,
//! decides how an installation, update or removal proceeds, and plans the
//! environment of the processes that run a toolchain's binaries. It performs
//! no input or output itself: every operation that needs the outside world is
//! a state machine that hands out one [`requests::Request`] at a time and is
//! resumed with the host's [`requests::Reply`].

pub mod command;
pub mod errors;
pub mod execution;
pub mod install;
pub mod installers;
pub mod laws;
pub mod lifecycle;
pub mod machine;
pub mod naming;
pub mod notifications;
pub mod paths;
pub mod platform;
pub mod requests;
pub mod steps;
pub mod text;
pub mod toolchain;
