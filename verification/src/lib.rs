//! Client runtime for a remote-debugging protocol: JSON commands with
//! correlated responses plus asynchronously pushed events, multiplexed over
//! sessions attached to targets.
//!
//! The crate is organised around the connection/dispatch core:
//! [`conn::Connection`] assigns call identifiers and frames outgoing
//! commands, [`cmd::CommandChain`] sequences ordered setup commands,
//! [`frame::FrameManager`] tracks the frame tree and navigation watchers,
//! [`target::Target`] drives the per-target initialization state machine,
//! and [`handler::Handler`] owns the maps that correlate everything.
//! All I/O (the socket, the typed-event codec, the process launcher) lives
//! outside this crate; the functions here are pure state transformers.

pub mod browser;
pub mod cdp;
pub mod cmd;
pub mod conn;
pub mod domworld;
pub mod emulation;
pub mod error;
pub mod frame;
pub mod handler;
pub mod network;
pub mod session;
pub mod target;
pub mod utils;
pub mod json;
pub mod strutil;
pub mod types;

pub use cmd::CommandChain;
