//! The tagged union of protocol events the core consumes, plus a generic
//! fallback for everything else.  The mapping from a method name and a raw
//! payload to one of these is the typed codec's job, outside the crate.

use vstd::prelude::*;

use crate::cdp::network;
use crate::cdp::page;
use crate::cdp::runtime;
use crate::cdp::target;
use crate::types::CdpJsonEventMessage;

verus! {

/// A typed protocol event, or the generic fallback.
#[derive(Debug)]
pub enum CdpEvent {
    /// A target was created.
    TargetTargetCreated(target::EventTargetCreated),
    /// A session attached to a target.
    TargetAttachedToTarget(target::EventAttachedToTarget),
    /// A session detached from its target.
    TargetDetachedFromTarget(target::EventDetachedFromTarget),
    /// A target was destroyed.
    TargetTargetDestroyed(target::EventTargetDestroyed),
    /// A frame attached to its parent.
    PageFrameAttached(page::EventFrameAttached),
    /// A frame detached.
    PageFrameDetached(page::EventFrameDetached),
    /// A frame navigated to a new document.
    PageFrameNavigated(page::EventFrameNavigated),
    /// A frame navigated within its document.
    PageNavigatedWithinDocument(page::EventNavigatedWithinDocument),
    /// A lifecycle milestone for a frame.
    PageLifecycleEvent(page::EventLifecycleEvent),
    /// A frame started loading.
    PageFrameStartedLoading(page::EventFrameStartedLoading),
    /// A frame stopped loading.
    PageFrameStoppedLoading(page::EventFrameStoppedLoading),
    /// An execution context was created.
    RuntimeExecutionContextCreated(runtime::EventExecutionContextCreated),
    /// An execution context was destroyed.
    RuntimeExecutionContextDestroyed(runtime::EventExecutionContextDestroyed),
    /// All execution contexts were cleared.
    RuntimeExecutionContextsCleared(runtime::EventExecutionContextsCleared),
    /// A registered binding was called.
    RuntimeBindingCalled(runtime::EventBindingCalled),
    /// A request was paused for interception.
    FetchRequestPaused(network::EventRequestPaused),
    /// A request needs authentication.
    FetchAuthRequired(network::EventAuthRequired),
    /// A request is about to be sent.
    NetworkRequestWillBeSent(network::EventRequestWillBeSent),
    /// A request was served from the cache.
    NetworkRequestServedFromCache(network::EventRequestServedFromCache),
    /// A response arrived.
    NetworkResponseReceived(network::EventResponseReceived),
    /// A request finished loading.
    NetworkLoadingFinished(network::EventLoadingFinished),
    /// A request failed to load.
    NetworkLoadingFailed(network::EventLoadingFailed),
    /// Any other event, kept raw.
    Other(CdpJsonEventMessage),
}

/// A decoded event together with its routing envelope.
#[derive(Debug)]
pub struct CdpEventMessage {
    /// Name of the method, like `Page.lifecycleEvent`.
    pub method: String,
    /// The session this event is meant for.
    pub session_id: Option<String>,
    /// The typed payload.
    pub params: CdpEvent,
}

} // verus!
