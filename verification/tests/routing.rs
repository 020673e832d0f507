use chromiumoxide::cdp::events::{CdpEvent, CdpEventMessage};
use chromiumoxide::cdp::page::EventLifecycleEvent;
use chromiumoxide::cdp::target::{
    EventAttachedToTarget, EventDetachedFromTarget, EventTargetCreated, TargetInfo,
};
use chromiumoxide::handler::{DecodedResponse, Handler, PendingRequest};
use chromiumoxide::cmd::CallerId;
use chromiumoxide::types::{CallId, Response};
use chromiumoxide::target::TargetConfig;
use chromiumoxide::types::{FrameId, LoaderId, SessionId, TargetId};

fn info(id: &str) -> TargetInfo {
    TargetInfo {
        target_id: TargetId(id.to_string()),
        target_type: "page".to_string(),
        title: String::new(),
        url: "about:blank".to_string(),
        attached: false,
        opener_id: None,
        browser_context_id: None,
    }
}

fn lifecycle_event(session: &str, frame: &str, name: &str) -> CdpEventMessage {
    CdpEventMessage {
        method: "Page.lifecycleEvent".to_string(),
        session_id: Some(session.to_string()),
        params: CdpEvent::PageLifecycleEvent(EventLifecycleEvent {
            frame_id: FrameId(frame.to_string()),
            loader_id: LoaderId("L1".to_string()),
            name: name.to_string(),
        }),
    }
}

#[test]
fn session_routing() {
    let mut h = Handler::new(TargetConfig::new(true, None));
    // a target is created and a session attaches to it
    h.on_event(&CdpEventMessage {
        method: "Target.targetCreated".to_string(),
        session_id: None,
        params: CdpEvent::TargetTargetCreated(EventTargetCreated { target_info: info("T1") }),
    });
    assert_eq!(h.targets.len(), 1);
    h.on_event(&CdpEventMessage {
        method: "Target.attachedToTarget".to_string(),
        session_id: None,
        params: CdpEvent::TargetAttachedToTarget(EventAttachedToTarget {
            session_id: SessionId("S1".to_string()),
            target_info: info("T1"),
            waiting_for_debugger: false,
        }),
    });
    assert_eq!(h.sessions.len(), 1);
    assert_eq!(h.targets[0].session_id.as_ref().unwrap().0, "S1");

    // give the target a frame so a routed event is observable
    h.targets[0].frame_manager.on_frame_navigated(&chromiumoxide::cdp::page::Frame {
        id: FrameId("F1".to_string()),
        parent_id: None,
        loader_id: None,
        url: "about:blank".to_string(),
        url_fragment: None,
        name: None,
    });

    // an event carrying session S1 is delivered to target T1
    h.on_event(&lifecycle_event("S1", "F1", "load"));
    let frame = h.targets[0].frame_manager.frame(&FrameId("F1".to_string())).unwrap();
    assert!(frame.is_loaded());

    // after the session detaches, events carrying S1 reach no target
    h.on_event(&CdpEventMessage {
        method: "Target.detachedFromTarget".to_string(),
        session_id: None,
        params: CdpEvent::TargetDetachedFromTarget(EventDetachedFromTarget {
            session_id: SessionId("S1".to_string()),
        }),
    });
    assert_eq!(h.sessions.len(), 0);
    let before = h.targets[0].frame_manager.frame(&FrameId("F1".to_string())).unwrap().lifecycle_events.len();
    h.on_event(&lifecycle_event("S1", "F1", "DOMContentLoaded"));
    let after = h.targets[0].frame_manager.frame(&FrameId("F1".to_string())).unwrap().lifecycle_events.len();
    assert_eq!(before, after);
}

#[test]
fn late_response_discarded() {
    let mut h = Handler::new(TargetConfig::new(true, None));
    h.pending_commands.push((CallId(5), PendingRequest::ExternalCommand(CallerId(9)), "A.a".to_string(), 0));
    // a response for an unknown id is discarded and touches nothing
    let r = h.on_response(Response { id: CallId(77), result: None, error: None }, DecodedResponse::Other);
    assert!(r.is_none());
    assert_eq!(h.pending_commands.len(), 1);
    // the matching response consumes its entry exactly once
    let r = h.on_response(Response { id: CallId(5), result: Some("{}".to_string()), error: None }, DecodedResponse::Other);
    assert!(r.is_some());
    assert_eq!(h.pending_commands.len(), 0);
    // the same response again finds nothing
    let r = h.on_response(Response { id: CallId(5), result: Some("{}".to_string()), error: None }, DecodedResponse::Other);
    assert!(r.is_none());
}
