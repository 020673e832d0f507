//! The message types exchanged with the browser: method calls identified by
//! a [`CallId`], responses correlated by that id, and uncorrelated events.
//!
//! Command parameters and response payloads travel through the core as raw
//! JSON text; the typed codec that turns payloads into typed values lives
//! outside the crate (it is generated from the protocol definition and has
//! no influence on correlation or dispatch).

use vstd::prelude::*;

verus! {

/// Identifier for a request sent to the browser; unique among currently
/// outstanding requests on one connection.
#[derive(Debug, Clone, Copy, PartialEq, Eq, Structural, Hash)]
pub struct CallId(pub usize);

impl CallId {
    /// Create a new id.
    pub fn new(id: usize) -> (r: CallId)
        ensures
            r == CallId(id),
    {
        CallId(id)
    }
}

/// Identifier of an attached session, through which commands and events are
/// routed to one target.
#[derive(Debug)]
pub struct SessionId(pub String);

/// Identifier of a remote-debuggable unit (a tab, a worker, ...).
#[derive(Debug)]
pub struct TargetId(pub String);

/// Unique frame identifier.
#[derive(Debug)]
pub struct FrameId(pub String);

/// Opaque per-document generation marker distinguishing a frame's successive
/// document loads.
#[derive(Debug)]
pub struct LoaderId(pub String);

/// Identifier of the browser context a target runs in.
#[derive(Debug)]
pub struct BrowserContextId(pub String);

/// A request sent by the client, identified by `id`.
#[derive(Debug)]
pub struct MethodCall {
    /// Identifier for this method call; unique per connection.
    pub id: CallId,
    /// The method identifier, like `Page.navigate`.
    pub method: String,
    /// The session this call is routed through, if any.
    pub session_id: Option<String>,
    /// The parameters, as serialized JSON text.
    pub params: String,
}

/// A request not yet assigned a call id: what a target or caller hands to
/// the connection.
#[derive(Debug)]
pub struct Request {
    /// The method identifier.
    pub method: String,
    /// The session this request targets.
    pub session_id: Option<String>,
    /// The parameters, as serialized JSON text.
    pub params: String,
}

impl Request {
    /// A request without a session.
    pub fn new(method: String, params: String) -> (r: Request)
        ensures
            r.method == method,
            r.params == params,
            r.session_id is None,
    {
        Request { method, session_id: None, params }
    }

    /// A request routed through the given session.
    pub fn with_session(method: String, params: String, session_id: String) -> (r: Request)
        ensures
            r.method == method,
            r.params == params,
            r.session_id == Some(session_id),
    {
        Request { method, session_id: Some(session_id), params }
    }
}

/// The error payload the browser returns for a failed method call.
#[derive(Debug)]
pub struct Error {
    /// Error code.
    pub code: i64,
    /// Error message.
    pub message: String,
}

/// A response to a [`MethodCall`]; exactly one of `result` and `error` is
/// set by a well-behaved server, but the decoder preserves whatever came.
#[derive(Debug)]
pub struct Response {
    /// Matching [`MethodCall`] identifier.
    pub id: CallId,
    /// The response payload, as raw JSON text.
    pub result: Option<String>,
    /// The reason the call failed.
    pub error: Option<Error>,
}

/// An error response tagged with the call it answers.
#[derive(Debug)]
pub struct ResponseError {
    /// Matching [`MethodCall`] identifier.
    pub id: CallId,
    /// Error code.
    pub code: i64,
    /// Error message.
    pub message: String,
}

/// An event pushed by the browser, not correlated to any request; the
/// payload is kept as raw JSON text for the typed codec outside the core.
#[derive(Debug)]
pub struct CdpJsonEventMessage {
    /// Name of the method, like `Page.lifecycleEvent`.
    pub method: String,
    /// The session this event is meant for.
    pub session_id: Option<String>,
    /// Raw JSON payload of the event.
    pub params: String,
}

/// An inbound frame: a response to a previous request (it carries an id) or
/// an event (it carries a method name and no id).
#[derive(Debug)]
pub enum Message {
    /// A response for a request.
    Response(Response),
    /// An event pushed by the server.
    Event(CdpJsonEventMessage),
}

/// A successful response whose payload a typed codec has already decoded.
#[derive(Debug)]
pub struct CommandResponse<T> {
    /// Matching [`MethodCall`] identifier.
    pub id: CallId,
    /// The decoded payload.
    pub result: T,
    /// The method identifier of the request this answers.
    pub method: String,
}

/// A binary blob as the protocol carries it: base64 text.
#[derive(Debug)]
pub struct Binary(pub String);

impl Clone for SessionId {
    /// Copies the identifier.
    fn clone(&self) -> (r: Self)
        ensures
            r == *self,
    {
        SessionId(self.0.clone())
    }
}

impl Clone for TargetId {
    /// Copies the identifier.
    fn clone(&self) -> (r: Self)
        ensures
            r == *self,
    {
        TargetId(self.0.clone())
    }
}

impl Clone for FrameId {
    /// Copies the identifier.
    fn clone(&self) -> (r: Self)
        ensures
            r == *self,
    {
        FrameId(self.0.clone())
    }
}

impl Clone for LoaderId {
    /// Copies the identifier.
    fn clone(&self) -> (r: Self)
        ensures
            r == *self,
    {
        LoaderId(self.0.clone())
    }
}

impl Clone for BrowserContextId {
    /// Copies the identifier.
    fn clone(&self) -> (r: Self)
        ensures
            r == *self,
    {
        BrowserContextId(self.0.clone())
    }
}

impl SessionId {
    /// Whether two session ids name the same session.
    pub fn same(&self, other: &SessionId) -> (r: bool)
        ensures
            r == (self.0@ == other.0@),
    {
        self.0 == other.0
    }
}

impl TargetId {
    /// Whether two target ids name the same target.
    pub fn same(&self, other: &TargetId) -> (r: bool)
        ensures
            r == (self.0@ == other.0@),
    {
        self.0 == other.0
    }
}

impl FrameId {
    /// Whether two frame ids name the same frame.
    pub fn same(&self, other: &FrameId) -> (r: bool)
        ensures
            r == (self.0@ == other.0@),
    {
        self.0 == other.0
    }
}

impl LoaderId {
    /// Whether two loader ids mark the same document generation.
    pub fn same(&self, other: &LoaderId) -> (r: bool)
        ensures
            r == (self.0@ == other.0@),
    {
        self.0 == other.0
    }
}

} // verus!
