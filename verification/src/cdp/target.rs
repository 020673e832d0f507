//! Types of the Target protocol domain: target descriptions, the commands
//! that create and attach to targets, and the target lifecycle events.

use vstd::prelude::*;
use vstd::string::StringExecFns;

use crate::json::{json_string, json_string_of};
use crate::types::{BrowserContextId, SessionId, TargetId};

verus! {

/// A description of a remote-debuggable unit.
#[derive(Debug)]
pub struct TargetInfo {
    /// The target's identifier.
    pub target_id: TargetId,
    /// The target's kind, like `page` or `service_worker`.
    pub target_type: String,
    /// The target's title.
    pub title: String,
    /// The target's URL.
    pub url: String,
    /// Whether the target has an attached client.
    pub attached: bool,
    /// The target that opened this one, absent for top-level targets.
    pub opener_id: Option<TargetId>,
    /// The context the target runs in.
    pub browser_context_id: Option<BrowserContextId>,
}

/// Fired when a target is created.
#[derive(Debug)]
pub struct EventTargetCreated {
    /// The created target.
    pub target_info: TargetInfo,
}

/// Fired when a session is attached to a target.
#[derive(Debug)]
pub struct EventAttachedToTarget {
    /// The attached session.
    pub session_id: SessionId,
    /// The target the session is attached to.
    pub target_info: TargetInfo,
    /// Whether the target is paused waiting for the debugger.
    pub waiting_for_debugger: bool,
}

/// Fired when a session is detached from its target.
#[derive(Debug)]
pub struct EventDetachedFromTarget {
    /// The detached session.
    pub session_id: SessionId,
}

/// Fired when a target is destroyed.
#[derive(Debug)]
pub struct EventTargetDestroyed {
    /// The destroyed target.
    pub target_id: TargetId,
}

/// The `Target.createTarget` command: creates a new page.
#[derive(Debug)]
pub struct CreateTargetParams {
    /// The initial URL the page will be navigated to.
    pub url: String,
    /// Frame width in DIP (headless only).
    pub width: Option<i64>,
    /// Frame height in DIP (headless only).
    pub height: Option<i64>,
    /// The browser context to create the page in.
    pub browser_context_id: Option<BrowserContextId>,
    /// Whether BeginFrames for this target are controlled by the client.
    pub enable_begin_frame_control: Option<bool>,
    /// Whether to create a new window rather than a tab.
    pub new_window: Option<bool>,
    /// Whether to create the target in the background.
    pub background: Option<bool>,
}

impl CreateTargetParams {
    /// A page creation request for the given URL; every option unset.
    pub fn new(url: String) -> (r: CreateTargetParams)
        ensures
            r.url == url,
            r.width is None,
            r.height is None,
            r.browser_context_id is None,
            r.enable_begin_frame_control is None,
            r.new_window is None,
            r.background is None,
    {
        CreateTargetParams {
            url,
            width: None,
            height: None,
            browser_context_id: None,
            enable_begin_frame_control: None,
            new_window: None,
            background: None,
        }
    }

    /// A page creation request for the empty page.
    pub fn blank() -> (r: CreateTargetParams)
        ensures
            r.url@ == "about:blank"@,
            r.width is None,
            r.height is None,
            r.browser_context_id is None,
            r.enable_begin_frame_control is None,
            r.new_window is None,
            r.background is None,
    {
        CreateTargetParams::new("about:blank".to_owned())
    }

    /// The method identifier of this command.
    pub fn identifier() -> (r: String)
        ensures
            r@ == "Target.createTarget"@,
    {
        "Target.createTarget".to_owned()
    }

    /// Writes the parameters as JSON text (the URL; the unset options are
    /// omitted, as the wire format allows).
    pub fn to_json(&self) -> (r: String)
        ensures
            r@ == "{\"url\":"@ + json_string(self.url@) + "}"@,
    {
        let mut out = String::new();
        out.append("{\"url\":");
        let u = json_string_of(self.url.as_str());
        out.append(u.as_str());
        out.append("}");
        proof {
            assert(out@ =~= "{\"url\":"@ + json_string(self.url@) + "}"@);
        }
        out
    }
}

/// What `Target.createTarget` returns.
#[derive(Debug)]
pub struct CreateTargetReturns {
    /// The id of the page opened.
    pub target_id: TargetId,
}

impl CreateTargetReturns {
    /// Wraps the returned target id.
    pub fn new(target_id: TargetId) -> (r: CreateTargetReturns)
        ensures
            r.target_id == target_id,
    {
        CreateTargetReturns { target_id }
    }
}

/// The `Target.attachToTarget` command: attaches to the target with the
/// given id.
#[derive(Debug)]
pub struct AttachToTargetParams {
    /// The target to attach to.
    pub target_id: TargetId,
    /// Enables "flat" access to the session via the `sessionId` attribute.
    pub flatten: Option<bool>,
}

impl AttachToTargetParams {
    /// An attach request with the flatten option unset.
    pub fn new(target_id: TargetId) -> (r: AttachToTargetParams)
        ensures
            r.target_id == target_id,
            r.flatten is None,
    {
        AttachToTargetParams { target_id, flatten: None }
    }

    /// The method identifier of this command.
    pub fn identifier() -> (r: String)
        ensures
            r@ == "Target.attachToTarget"@,
    {
        "Target.attachToTarget".to_owned()
    }

    /// Writes the parameters as JSON text.
    pub fn to_json(&self) -> (r: String)
        ensures
            r@ == "{\"targetId\":"@ + json_string(self.target_id.0@) + (match self.flatten {
                Some(true) => ",\"flatten\":true}"@,
                Some(false) => ",\"flatten\":false}"@,
                None => "}"@,
            }),
    {
        let mut out = String::new();
        out.append("{\"targetId\":");
        let t = json_string_of(self.target_id.0.as_str());
        out.append(t.as_str());
        match self.flatten {
            Some(true) => out.append(",\"flatten\":true}"),
            Some(false) => out.append(",\"flatten\":false}"),
            None => out.append("}"),
        }
        proof {
            assert(out@ =~= "{\"targetId\":"@ + json_string(self.target_id.0@) + (
            match self.flatten {
                Some(true) => ",\"flatten\":true}"@,
                Some(false) => ",\"flatten\":false}"@,
                None => "}"@,
            }));
        }
        out
    }
}

/// What `Target.attachToTarget` returns.
#[derive(Debug)]
pub struct AttachToTargetReturns {
    /// The id assigned to the session.
    pub session_id: SessionId,
}

impl AttachToTargetReturns {
    /// Wraps the returned session id.
    pub fn new(session_id: SessionId) -> (r: AttachToTargetReturns)
        ensures
            r.session_id == session_id,
    {
        AttachToTargetReturns { session_id }
    }
}

/// The `Target.setDiscoverTargets` command: turns target discovery on or
/// off.
#[derive(Debug)]
pub struct SetDiscoverTargetsParams {
    /// Whether discovery is enabled.
    pub discover: bool,
}

impl SetDiscoverTargetsParams {
    /// A discovery toggle.
    pub fn new(discover: bool) -> (r: SetDiscoverTargetsParams)
        ensures
            r.discover == discover,
    {
        SetDiscoverTargetsParams { discover }
    }

    /// The method identifier of this command.
    pub fn identifier() -> (r: String)
        ensures
            r@ == "Target.setDiscoverTargets"@,
    {
        "Target.setDiscoverTargets".to_owned()
    }

    /// Writes the parameters as JSON text.
    pub fn to_json(&self) -> (r: String)
        ensures
            self.discover ==> r@ == "{\"discover\":true}"@,
            !self.discover ==> r@ == "{\"discover\":false}"@,
    {
        if self.discover {
            "{\"discover\":true}".to_owned()
        } else {
            "{\"discover\":false}".to_owned()
        }
    }
}

/// The `Target.setAutoAttach` command.
#[derive(Debug)]
pub struct SetAutoAttachParams {
    /// Whether to attach to new targets automatically.
    pub auto_attach: bool,
    /// Whether new targets start paused waiting for the debugger.
    pub wait_for_debugger_on_start: bool,
    /// Enables "flat" access to the auto-attached sessions.
    pub flatten: Option<bool>,
}

impl SetAutoAttachParams {
    /// The method identifier of this command.
    pub fn identifier() -> (r: String)
        ensures
            r@ == "Target.setAutoAttach"@,
    {
        "Target.setAutoAttach".to_owned()
    }

    /// Writes the parameters as JSON text.
    pub fn to_json(&self) -> (r: String)
        ensures
            r@ == "{\"autoAttach\":"@ + (if self.auto_attach {
                "true"@
            } else {
                "false"@
            }) + ",\"waitForDebuggerOnStart\":"@ + (if self.wait_for_debugger_on_start {
                "true"@
            } else {
                "false"@
            }) + (match self.flatten {
                Some(true) => ",\"flatten\":true}"@,
                Some(false) => ",\"flatten\":false}"@,
                None => "}"@,
            }),
    {
        let mut out = String::new();
        out.append("{\"autoAttach\":");
        if self.auto_attach {
            out.append("true");
        } else {
            out.append("false");
        }
        out.append(",\"waitForDebuggerOnStart\":");
        if self.wait_for_debugger_on_start {
            out.append("true");
        } else {
            out.append("false");
        }
        match self.flatten {
            Some(true) => out.append(",\"flatten\":true}"),
            Some(false) => out.append(",\"flatten\":false}"),
            None => out.append("}"),
        }
        out
    }
}

} // verus!
