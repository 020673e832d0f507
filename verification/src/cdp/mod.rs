//! Typed protocol data: one module per protocol domain.  These are plain
//! data carriers; the generated codec that fills them from raw event
//! payloads lives outside the crate.

pub mod dom;
pub mod emulation;
pub mod events;
pub mod network;
pub mod page;
pub mod runtime;
pub mod target;
