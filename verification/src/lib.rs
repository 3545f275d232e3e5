//! Unlocks a hidden browser feature by patching the browser's JSON preference
//! store, after making sure that the browser no longer holds that file.
//!
//! The library decides and its driver acts. Nothing in here starts a process,
//! reads a clock or opens a file: the state machines of [`lifecycle`] and
//! [`workflow`] hand out [`driver::Action`]s and take [`driver::Event`]s, and
//! every step they take is stated in a contract and proved.
//!
//! - [`patcher`]: the patch engine, on JSON documents that `serde_json` holds;
//! - [`json`]: the JSON model of the contracts and the calls into `serde_json`;
//! - [`platform`]: paths, commands and the reading of their outcomes, for each
//!   operating system;
//! - [`lifecycle`]: the monitor and the terminator of the browser's process;
//! - [`workflow`]: the run as a whole;
//! - [`pids`], [`text`], [`error`], [`cli`], [`driver`]: what the others build
//!   on.

pub mod cli;
pub mod driver;
pub mod error;
pub mod json;
pub mod lifecycle;
pub mod patcher;
pub mod pids;
pub mod platform;
pub mod text;
pub mod workflow;
