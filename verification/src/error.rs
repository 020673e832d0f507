//! The error taxonomy of the runtime: per-request failures surfaced to one
//! caller, and framing failures that end the whole stream.

use vstd::prelude::*;

use crate::json::DecodeError;
use crate::types::{Error, FrameId};

verus! {

/// An error surfaced by the runtime.  Transport-level failures (the socket
/// itself) live with the transport, outside this crate.
#[derive(Debug)]
pub enum CdpError {
    /// An inbound frame could not be decoded; fatal for the stream.
    Decode(DecodeError),
    /// An outbound identifier could not be framed verbatim.
    Encode,
    /// The browser answered this one command with an error payload.
    Chrome(Error),
    /// A response carried neither a result nor an error.
    NoResponse,
    /// No response arrived within the configured window.
    Timeout,
    /// The frame a navigation targeted is not tracked.
    FrameNotFound(FrameId),
    /// An error message from the browser outside the error payload shape.
    ChromeMessage(String),
    /// The requested value was not found.
    NotFound,
    /// A reply channel was already closed; logged and dropped, never fatal.
    ChannelSendError,
}

impl CdpError {
    /// An error carrying a bare message.
    pub fn msg(msg: String) -> (r: CdpError)
        ensures
            r == CdpError::ChromeMessage(msg),
    {
        CdpError::ChromeMessage(msg)
    }
}

} // verus!
