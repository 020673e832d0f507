use chromiumoxide::cmd::{ChainPoll, CommandChain};
use chromiumoxide::frame::{FrameManager, NavigationId, NavigationOk, NavigationRequest};
use chromiumoxide::cdp::page::{EventLifecycleEvent, EventNavigatedWithinDocument, Frame as FramePayload};
use chromiumoxide::frame::FrameEvent;
use chromiumoxide::json::{decode_frame, encode_method_call};
use chromiumoxide::types::{CallId, FrameId, LoaderId, Message, MethodCall};
use chromiumoxide::utils::{evaluation_string, is_likely_js_function};

#[test]
fn is_js_function() {
    assert!(is_likely_js_function("function abc() {}"));
    assert!(is_likely_js_function("async function abc() {}"));
    assert!(is_likely_js_function("() => {}"));
    assert!(is_likely_js_function("(abc, def) => {}"));
    assert!(is_likely_js_function("((abc), (def)) => {}"));
    assert!(is_likely_js_function("() => Promise.resolve(100 / 25)"));
}

#[test]
fn not_js_function() {
    assert!(!is_likely_js_function(""));
    assert!(!is_likely_js_function("   "));
    assert!(!is_likely_js_function("document.title"));
    assert!(!is_likely_js_function("(unbalanced"));
}

#[test]
fn evaluation_string_wraps_params() {
    let s = evaluation_string("f", &vec!["a".to_string(), "b".to_string()]);
    assert_eq!(s, "(f)(\"a\",\"b\")");
    let s2 = evaluation_string("g", &vec![]);
    assert_eq!(s2, "(g)()");
}

#[test]
fn round_trip_id() {
    // encode a request, let a mock transport echo a response with the same
    // id, and check the decoded response carries that id
    let call = MethodCall {
        id: CallId::new(7231),
        method: "Page.navigate".to_string(),
        session_id: Some("S1".to_string()),
        params: "{\"url\":\"about:blank\"}".to_string(),
    };
    let text = encode_method_call(&call).unwrap();
    assert_eq!(
        text,
        "{\"id\":7231,\"method\":\"Page.navigate\",\"sessionId\":\"S1\",\"params\":{\"url\":\"about:blank\"}}"
    );
    let echo = format!("{{\"id\":{},\"result\":{{}}}}", 7231);
    match decode_frame(&echo) {
        Ok(Message::Response(resp)) => {
            assert_eq!(resp.id, call.id);
            assert_eq!(resp.result.as_deref(), Some("{}"));
            assert!(resp.error.is_none());
        },
        other => panic!("expected a response, got {:?}", other),
    }
}

#[test]
fn decode_event_and_errors() {
    let ev = "{\"method\":\"Page.lifecycleEvent\",\"sessionId\":\"S1\",\"params\":{\"name\":\"load\"}}";
    match decode_frame(ev) {
        Ok(Message::Event(e)) => {
            assert_eq!(e.method, "Page.lifecycleEvent");
            assert_eq!(e.session_id.as_deref(), Some("S1"));
            assert_eq!(e.params, "{\"name\":\"load\"}");
        },
        other => panic!("expected an event, got {:?}", other),
    }
    assert!(decode_frame("not json").is_err());
    assert!(decode_frame("{}").is_err());
    let err = "{\"id\":3,\"error\":{\"code\":-32000,\"message\":\"bad\"}}";
    match decode_frame(err) {
        Ok(Message::Response(resp)) => {
            let e = resp.error.unwrap();
            assert_eq!(e.code, -32000);
            assert_eq!(e.message, "bad");
        },
        other => panic!("expected an error response, got {:?}", other),
    }
}

#[test]
fn chain_poll_boundary() {
    // an empty, non-awaiting chain reports done immediately
    let mut chain = CommandChain::empty();
    assert!(matches!(chain.poll(0), ChainPoll::Done));
    // a timed-out command is reported exactly once and never reissued
    let mut chain = CommandChain::new(vec![("A.b".to_string(), "{}".to_string())]);
    match chain.poll(0) {
        ChainPoll::Next(m, _) => assert_eq!(m, "A.b"),
        other => panic!("expected the first command, got {:?}", other),
    }
    match chain.poll(40_000) {
        ChainPoll::TimedOut(e) => {
            assert_eq!(e.now, 40_000);
            assert_eq!(e.deadline, 30_000);
        },
        other => panic!("expected a timeout, got {:?}", other),
    }
    assert!(matches!(chain.poll(40_001), ChainPoll::Done));
}

fn main_frame_payload(id: &str) -> FramePayload {
    FramePayload {
        id: FrameId(id.to_string()),
        parent_id: None,
        loader_id: None,
        url: "about:blank".to_string(),
        url_fragment: None,
        name: None,
    }
}

#[test]
fn frame_attach_idempotent() {
    let mut fm = FrameManager::new();
    fm.on_frame_navigated(&main_frame_payload("F0"));
    fm.on_frame_attached(FrameId("F1".to_string()), Some(FrameId("F0".to_string())));
    let frames_before = fm.frames.len();
    assert_eq!(frames_before, 2);
    // the second attach with the same frame and parent changes nothing
    fm.on_frame_attached(FrameId("F1".to_string()), Some(FrameId("F0".to_string())));
    assert_eq!(fm.frames.len(), frames_before);
    let parent = fm.frame(&FrameId("F0".to_string())).unwrap();
    assert_eq!(parent.child_frames.len(), 1);
}

fn lifecycle(fm: &mut FrameManager, frame: &str, loader: &str, name: &str) {
    fm.on_page_lifecycle_event(&EventLifecycleEvent {
        frame_id: FrameId(frame.to_string()),
        loader_id: LoaderId(loader.to_string()),
        name: name.to_string(),
    });
}

#[test]
fn navigation_new_document() {
    let mut fm = FrameManager::new();
    fm.on_frame_navigated(&main_frame_payload("F0"));
    lifecycle(&mut fm, "F0", "L1", "init");
    fm.goto(NavigationRequest { id: NavigationId(1), referer: None, url: "https://a".to_string() });
    // issue the navigate command
    match fm.poll(0) {
        Some(FrameEvent::NavigationRequest(id, params)) => {
            assert_eq!(id, NavigationId(1));
            assert_eq!(params.url, "https://a");
        },
        other => panic!("expected the navigation request, got {:?}", other),
    }
    // not complete yet: loader still L1, no load milestone
    assert!(fm.poll(1).is_none());
    // the remote reports a new document (loader L2) and the load milestone
    lifecycle(&mut fm, "F0", "L2", "init");
    lifecycle(&mut fm, "F0", "L2", "load");
    match fm.poll(2) {
        Some(FrameEvent::NavigationResult(Ok(NavigationOk::NewDocumentNavigation(id)))) => {
            assert_eq!(id, NavigationId(1));
        },
        other => panic!("expected a new-document resolution, got {:?}", other),
    }
}

#[test]
fn navigation_same_document() {
    let mut fm = FrameManager::new();
    fm.on_frame_navigated(&main_frame_payload("F0"));
    lifecycle(&mut fm, "F0", "L1", "init");
    lifecycle(&mut fm, "F0", "L1", "load");
    fm.goto(NavigationRequest { id: NavigationId(2), referer: None, url: "https://a#x".to_string() });
    assert!(matches!(fm.poll(0), Some(FrameEvent::NavigationRequest(_, _))));
    // the loader stays L1, but a same-document navigation event arrives
    fm.on_frame_navigated_within_document(&EventNavigatedWithinDocument {
        frame_id: FrameId("F0".to_string()),
        url: "https://a#x".to_string(),
    });
    match fm.poll(1) {
        Some(FrameEvent::NavigationResult(Ok(NavigationOk::SameDocumentNavigation(id)))) => {
            assert_eq!(id, NavigationId(2));
        },
        other => panic!("expected a same-document resolution, got {:?}", other),
    }
}

#[test]
fn navigation_timeout() {
    let mut fm = FrameManager::new();
    fm.on_frame_navigated(&main_frame_payload("F0"));
    fm.goto(NavigationRequest { id: NavigationId(3), referer: None, url: "https://a".to_string() });
    assert!(matches!(fm.poll(0), Some(FrameEvent::NavigationRequest(_, _))));
    // no completion within the window
    match fm.poll(30_001) {
        Some(FrameEvent::NavigationResult(Err(e))) => {
            assert_eq!(e.navigation_id(), NavigationId(3));
        },
        other => panic!("expected a timeout, got {:?}", other),
    }
    // reported exactly once: nothing is watched afterwards
    assert!(fm.poll(30_002).is_none());
}

#[test]
fn call_ids_increase() {
    let mut conn = chromiumoxide::conn::Connection::new();
    let a = conn.submit_command("A.a".to_string(), None, "{}".to_string());
    let b = conn.submit_command("A.b".to_string(), None, "{}".to_string());
    let c = conn.submit_command("A.c".to_string(), None, "{}".to_string());
    assert_eq!(a, CallId(0));
    assert_eq!(b, CallId(1));
    assert_eq!(c, CallId(2));
}
