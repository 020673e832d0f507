//! The top-level dispatcher: owns the connection, the maps of targets and
//! sessions, the in-flight request map, and routes every response and event
//! to the right consumer.  The driver outside the crate runs the event
//! loop; each method here is one deterministic step of it.

use vstd::prelude::*;
use vstd::string::StringExecFns;

use crate::cdp::events::{CdpEvent, CdpEventMessage};
use crate::cdp::target::CreateTargetReturns;
use crate::cmd::{CallerId, CommandMessage, REQUEST_TIMEOUT};
use crate::conn::Connection;
use crate::frame::{NavigationError, NavigationId, NavigationOk, NavigationRequest};
use crate::session::Session;
use crate::target::{Target, TargetConfig, TargetEvent, TargetMessage, TargetReply};
use crate::types::{CallId, Request, Response, SessionId, TargetId};

verus! {

/// Why a call id was sent: whom its response belongs to.
#[derive(Debug)]
pub enum PendingRequest {
    /// A request to create a new target; the caller gets the page later.
    CreateTarget(CallerId),
    /// A navigation request, resolved only when the page finishes loading.
    Navigate(NavigationId),
    /// A caller's command; the response goes straight back.
    ExternalCommand(CallerId),
    /// A target's own initialization command.
    InternalCommand(TargetId),
}

/// The sender half of a navigation in progress: resolved once both the
/// response and the lifecycle completion have arrived.
#[derive(Debug)]
pub struct NavigationInProgress {
    /// The navigation lifecycle has completed.
    pub navigated: bool,
    /// The response to the issued navigation request, once arrived.
    pub response: Option<Response>,
    /// The caller the result is owed to.
    pub tx: CallerId,
}

/// A send the driver owes to a caller.
#[derive(Debug)]
pub enum HandlerReply {
    /// Deliver this response to the caller.
    Resp(CallerId, Response),
    /// Tell the caller its request failed with a timeout.
    Timeout(CallerId),
    /// Tell the caller its navigation failed: the navigated frame is gone.
    NotFound(CallerId),
    /// Tell the caller its request failed: the response carried no usable
    /// payload.
    NoPayload(CallerId),
    /// The created target's page is owed to this caller once ready.
    PageReady(CallerId, TargetId, Option<SessionId>),
    /// A navigation-waiting caller is owed the frame's URL.
    FrameLoaded(CallerId, Option<String>),
}

/// The response payload a typed codec decoded for the handler, where one is
/// needed for routing.
#[derive(Debug)]
pub enum DecodedResponse {
    /// A `Target.createTarget` result.
    CreateTarget(CreateTargetReturns),
    /// A `Page.getFrameTree` result.
    FrameTree(crate::cdp::page::FrameTree),
    /// Anything else; the raw payload travels in the [`Response`].
    Other,
}

/// The dispatcher's state.
#[derive(Debug)]
pub struct Handler {
    /// In-flight requests: call id, whom it belongs to, its method, and
    /// when it was issued (for eviction).
    pub pending_commands: Vec<(CallId, PendingRequest, String, u64)>,
    /// The tracked targets.
    pub targets: Vec<Target>,
    /// The active sessions.
    pub sessions: Vec<Session>,
    /// Navigations in progress, by navigation id.
    pub navigations: Vec<(NavigationId, NavigationInProgress)>,
    /// The connection to the browser.
    pub conn: Connection,
    /// The identifier the next navigation gets.
    pub next_navigation_id: usize,
    /// The configuration new targets get.
    pub config: TargetConfig,
}

impl Handler {
    /// The queues and maps are well formed.
    pub open spec fn wf(&self) -> bool {
        &&& self.conn.wf()
        &&& forall|i: int| 0 <= i < self.targets@.len() ==> (#[trigger] self.targets@[i]).wf()
    }

    /// Whether a session with the given id is tracked, and where.
    pub open spec fn session_of(&self, sid: Seq<char>) -> Option<int> {
        if exists|i: int| 0 <= i < self.sessions@.len() && (#[trigger] self.sessions@[i]).id.0@
            == sid {
            Some(
                choose|i: int|
                    0 <= i < self.sessions@.len() && (#[trigger] self.sessions@[i]).id.0@ == sid,
            )
        } else {
            None
        }
    }

    /// The position of the first in-flight entry for a call id.
    pub open spec fn find_pending(
        s: Seq<(CallId, PendingRequest, String, u64)>,
        id: CallId,
        i: int,
    ) -> Option<int>
        decreases s.len() - i,
    {
        if i < 0 || i >= s.len() {
            None
        } else if s[i].0 == id {
            Some(i)
        } else {
            Self::find_pending(s, id, i + 1)
        }
    }

    /// The position of the first target with the given id.
    pub open spec fn find_target_idx(s: Seq<Target>, tid: Seq<char>, i: int) -> Option<int>
        decreases s.len() - i,
    {
        if i < 0 || i >= s.len() {
            None
        } else if s[i].info.target_id.0@ == tid {
            Some(i)
        } else {
            Self::find_target_idx(s, tid, i + 1)
        }
    }

    /// The position of the first session with the given id.
    pub open spec fn find_session_idx(s: Seq<Session>, sid: Seq<char>, i: int) -> Option<int>
        decreases s.len() - i,
    {
        if i < 0 || i >= s.len() {
            None
        } else if s[i].id.0@ == sid {
            Some(i)
        } else {
            Self::find_session_idx(s, sid, i + 1)
        }
    }

    /// The position of the first navigation entry with the given id.
    pub open spec fn find_nav_idx(
        s: Seq<(NavigationId, NavigationInProgress)>,
        id: NavigationId,
        i: int,
    ) -> Option<int>
        decreases s.len() - i,
    {
        if i < 0 || i >= s.len() {
            None
        } else if s[i].0 == id {
            Some(i)
        } else {
            Self::find_nav_idx(s, id, i + 1)
        }
    }

    /// What a response to a navigation request does to the navigations map:
    /// an unknown id changes nothing; a navigation whose lifecycle already
    /// completed is answered now and removed; otherwise the response is
    /// parked with the entry — so the caller is answered exactly once both
    /// halves have arrived, in either order.
    pub open spec fn nav_response_rel(
        pre: Seq<(NavigationId, NavigationInProgress)>,
        post: Seq<(NavigationId, NavigationInProgress)>,
        id: NavigationId,
        resp: Response,
        r: Option<HandlerReply>,
    ) -> bool {
        match Self::find_nav_idx(pre, id, 0) {
            None => post == pre && r is None,
            Some(j) => {
                if pre[j].1.navigated {
                    &&& post == pre.remove(j)
                    &&& r == Some(HandlerReply::Resp(pre[j].1.tx, resp))
                } else {
                    &&& post == pre.update(
                        j,
                        (pre[j].0, NavigationInProgress { response: Some(resp), ..pre[j].1 }),
                    )
                    &&& r is None
                }
            },
        }
    }

    /// A new handler over a fresh connection; it immediately queues the one
    /// bootstrap command that enables target discovery.
    pub fn new(config: TargetConfig) -> (r: Handler)
        ensures
            r.wf(),
            r.pending_commands@.len() == 0,
            r.targets@.len() == 0,
            r.sessions@.len() == 0,
            r.navigations@.len() == 0,
            r.conn.queued().len() == 1,
            r.conn.queued()[0].method@ == "Target.setDiscoverTargets"@,
            r.conn.queued()[0].params@ == "{\"discover\":true}"@,
            r.conn.queued()[0].session_id is None,
            r.next_navigation_id == 0,
    {
        let mut conn = Connection::new();
        let discover = crate::cdp::target::SetDiscoverTargetsParams::new(true);
        let json = discover.to_json();
        conn.submit_command(
            crate::cdp::target::SetDiscoverTargetsParams::identifier(),
            None,
            json,
        );
        Handler {
            pending_commands: Vec::new(),
            targets: Vec::new(),
            sessions: Vec::new(),
            navigations: Vec::new(),
            conn,
            next_navigation_id: 0,
            config,
        }
    }

    /// The position of the first target with the given id.
    fn find_target(&self, id: &TargetId) -> (r: Option<usize>)
        ensures
            match r {
                Some(i) => i < self.targets@.len() && self.targets@[i as int].info.target_id.0@
                    == id.0@ && Self::find_target_idx(self.targets@, id.0@, 0) == Some(i as int),
                None => Self::find_target_idx(self.targets@, id.0@, 0) is None && forall|i: int|
                    0 <= i < self.targets@.len() ==> (
                    #[trigger] self.targets@[i]).info.target_id.0@ != id.0@,
            },
    {
        let n = self.targets.len();
        let mut i: usize = 0;
        while i < n
            invariant
                n == self.targets@.len(),
                i <= n,
                forall|j: int|
                    0 <= j < i ==> (#[trigger] self.targets@[j]).info.target_id.0@ != id.0@,
                Self::find_target_idx(self.targets@, id.0@, 0) == Self::find_target_idx(
                    self.targets@,
                    id.0@,
                    i as int,
                ),
            decreases n - i,
        {
            if self.targets[i].info.target_id.same(id) {
                return Some(i);
            }
            i = i + 1;
        }
        None
    }

    /// The position of the first session with the given id.
    fn find_session(&self, id: &str) -> (r: Option<usize>)
        ensures
            match r {
                Some(i) => i < self.sessions@.len() && self.sessions@[i as int].id.0@ == id@
                    && Self::find_session_idx(self.sessions@, id@, 0) == Some(i as int)
                    && self.session_of(id@) is Some,
                None => Self::find_session_idx(self.sessions@, id@, 0) is None && self.session_of(
                    id@,
                ) is None,
            },
    {
        let n = self.sessions.len();
        let mut i: usize = 0;
        while i < n
            invariant
                n == self.sessions@.len(),
                i <= n,
                forall|j: int| 0 <= j < i ==> (#[trigger] self.sessions@[j]).id.0@ != id@,
                Self::find_session_idx(self.sessions@, id@, 0) == Self::find_session_idx(
                    self.sessions@,
                    id@,
                    i as int,
                ),
            decreases n - i,
        {
            if crate::strutil::str_eq(self.sessions[i].id.0.as_str(), id) {
                return Some(i);
            }
            i = i + 1;
        }
        None
    }

    /// Routes a response to whom it belongs: the first in-flight entry
    /// carrying the response's id is consumed exactly once and routed per
    /// its tag — a caller's command is answered directly, a create-target
    /// response moves the waiting initiator into the named target, a
    /// navigation response goes to the navigation bookkeeping, a target's
    /// own command goes to that target — and nothing else moves.  A
    /// response with no matching entry (for instance one that already timed
    /// out and was evicted) is discarded: no reply, no state change.
    pub fn on_response(&mut self, resp: Response, decoded: DecodedResponse) -> (r: Option<
        HandlerReply,
    >)
        requires
            old(self).wf(),
        ensures
            final(self).wf(),
            final(self).sessions == old(self).sessions,
            final(self).conn == old(self).conn,
            final(self).next_navigation_id == old(self).next_navigation_id,
            final(self).config == old(self).config,
            (match Self::find_pending(old(self).pending_commands@, resp.id, 0) {
                None => {
                    &&& r is None
                    &&& final(self).pending_commands == old(self).pending_commands
                    &&& final(self).targets == old(self).targets
                    &&& final(self).navigations == old(self).navigations
                },
                Some(k) => {
                    &&& final(self).pending_commands@ == old(self).pending_commands@.remove(k)
                    &&& (match old(self).pending_commands@[k].1 {
                        PendingRequest::ExternalCommand(tx) => {
                            &&& r == Some(HandlerReply::Resp(tx, resp))
                            &&& final(self).targets == old(self).targets
                            &&& final(self).navigations == old(self).navigations
                        },
                        PendingRequest::CreateTarget(tx) => {
                            &&& final(self).navigations == old(self).navigations
                            &&& (match decoded {
                                DecodedResponse::CreateTarget(ret) => (match Self::find_target_idx(
                                    old(self).targets@,
                                    ret.target_id.0@,
                                    0,
                                ) {
                                    Some(ti) => (r is None) && final(self).targets@
                                        == old(self).targets@.update(
                                        ti,
                                        (Target {
                                            initiator: Some(tx),
                                            initialize: true,
                                            ..old(self).targets@[ti]
                                        }),
                                    ),
                                    None => r == Some(HandlerReply::NoPayload(tx))
                                        && final(self).targets == old(self).targets,
                                }),
                                _ => r == Some(HandlerReply::NoPayload(tx)) && final(self).targets
                                    == old(self).targets,
                            })
                        },
                        PendingRequest::Navigate(nid) => {
                            &&& final(self).targets == old(self).targets
                            &&& Self::nav_response_rel(
                                old(self).navigations@,
                                final(self).navigations@,
                                nid,
                                resp,
                                r,
                            )
                        },
                        PendingRequest::InternalCommand(tid) => {
                            &&& final(self).navigations == old(self).navigations
                            &&& (match Self::find_target_idx(old(self).targets@, tid.0@, 0) {
                                Some(ti) => {
                                    &&& r is None
                                    &&& final(self).targets@.len() == old(self).targets@.len()
                                    &&& Target::on_response_rel(
                                        old(self).targets@[ti],
                                        final(self).targets@[ti],
                                        old(self).pending_commands@[k].2@,
                                        (match decoded {
                                            DecodedResponse::FrameTree(t) => Some(t),
                                            _ => None,
                                        }),
                                    )
                                    &&& forall|j: int|
                                        0 <= j < old(self).targets@.len() && j != ti
                                            ==> final(self).targets@[j] == old(self).targets@[j]
                                },
                                None => (r is None) && final(self).targets == old(self).targets,
                            })
                        },
                    })
                },
            }),
    {
        let k = match self.find_pending_at(&resp.id) {
            Some(k) => k,
            None => {
                return None;
            },
        };
        let (id, req, method, at) = self.pending_commands.remove(k);
        match req {
            PendingRequest::ExternalCommand(tx) => Some(HandlerReply::Resp(tx, resp)),
            PendingRequest::CreateTarget(tx) => {
                match decoded {
                    DecodedResponse::CreateTarget(ret) => {
                        match self.find_target(&ret.target_id) {
                            Some(ti) => {
                                let t = &mut self.targets[ti];
                                t.set_initiator(tx);
                                None
                            },
                            None => Some(HandlerReply::NoPayload(tx)),
                        }
                    },
                    _ => Some(HandlerReply::NoPayload(tx)),
                }
            },
            PendingRequest::Navigate(nav_id) => self.on_navigation_response(nav_id, resp),
            PendingRequest::InternalCommand(target_id) => {
                match self.find_target(&target_id) {
                    Some(ti) => {
                        let tree_opt = match decoded {
                            DecodedResponse::FrameTree(tree) => Some(tree),
                            _ => None,
                        };
                        let t = &mut self.targets[ti];
                        t.on_response(&resp, method.as_str(), &tree_opt);
                        None
                    },
                    None => None,
                }
            },
        }
    }

    /// The position of the first in-flight entry for a call id (executable
    /// form).
    fn find_pending_at(&self, id: &CallId) -> (r: Option<usize>)
        ensures
            match r {
                Some(k) => Self::find_pending(self.pending_commands@, *id, 0) == Some(k as int)
                    && k < self.pending_commands@.len(),
                None => Self::find_pending(self.pending_commands@, *id, 0) is None,
            },
    {
        let n = self.pending_commands.len();
        let mut i: usize = 0;
        while i < n
            invariant
                n == self.pending_commands@.len(),
                i <= n,
                Self::find_pending(self.pending_commands@, *id, 0) == Self::find_pending(
                    self.pending_commands@,
                    *id,
                    i as int,
                ),
            decreases n - i,
        {
            if self.pending_commands[i].0 == *id {
                return Some(i);
            }
            i = i + 1;
        }
        None
    }

    /// A response to a navigation request arrived: when the lifecycle has
    /// already completed the caller is answered now and the entry removed;
    /// otherwise the response is parked with the navigation — so the caller
    /// is answered exactly once both halves have arrived, in either order.
    fn on_navigation_response(&mut self, id: NavigationId, resp: Response) -> (r: Option<
        HandlerReply,
    >)
        requires
            old(self).wf(),
        ensures
            final(self).wf(),
            Self::nav_response_rel(old(self).navigations@, final(self).navigations@, id, resp, r),
            final(self).pending_commands == old(self).pending_commands,
            final(self).targets == old(self).targets,
            final(self).sessions == old(self).sessions,
            final(self).conn == old(self).conn,
            final(self).next_navigation_id == old(self).next_navigation_id,
            final(self).config == old(self).config,
    {
        let j = match self.find_nav_at(&id) {
            Some(j) => j,
            None => {
                return None;
            },
        };
        if self.navigations[j].1.navigated {
            let (_, nav) = self.navigations.remove(j);
            Some(HandlerReply::Resp(nav.tx, resp))
        } else {
            let entry = &mut self.navigations[j];
            entry.1.response = Some(resp);
            proof {
                assert(self.navigations@ =~= old(self).navigations@.update(
                    j as int,
                    (old(self).navigations@[j as int].0, NavigationInProgress {
                        response: self.navigations@[j as int].1.response,
                        ..old(self).navigations@[j as int].1
                    }),
                ));
            }
            None
        }
    }

    /// The position of the first navigation entry for an id (executable
    /// form).
    fn find_nav_at(&self, id: &NavigationId) -> (r: Option<usize>)
        ensures
            match r {
                Some(j) => Self::find_nav_idx(self.navigations@, *id, 0) == Some(j as int) && j
                    < self.navigations@.len(),
                None => Self::find_nav_idx(self.navigations@, *id, 0) is None,
            },
    {
        let n = self.navigations.len();
        let mut i: usize = 0;
        while i < n
            invariant
                n == self.navigations@.len(),
                i <= n,
                Self::find_nav_idx(self.navigations@, *id, 0) == Self::find_nav_idx(
                    self.navigations@,
                    *id,
                    i as int,
                ),
            decreases n - i,
        {
            if self.navigations[i].0 == *id {
                return Some(i);
            }
            i = i + 1;
        }
        None
    }

    /// The navigation a result speaks about.
    pub open spec fn nav_res_id(res: Result<NavigationOk, NavigationError>) -> NavigationId {
        match res {
            Ok(ok) => match ok {
                NavigationOk::SameDocumentNavigation(id) => id,
                NavigationOk::NewDocumentNavigation(id) => id,
            },
            Err(err) => match err {
                NavigationError::Timeout { id, .. } => id,
                NavigationError::FrameNotFound { id, .. } => id,
            },
        }
    }

    /// A navigation finished or failed.  On success the caller gets its
    /// parked response now, or the completion is marked and the entry waits
    /// for the response (either arrival order answers the caller exactly
    /// once).  On failure the entry is removed and the caller gets the
    /// matching error kind: a timeout, or not-found when the frame is gone.
    pub fn on_navigation_lifecycle_completed(&mut self, res: &Result<NavigationOk, NavigationError>)
        -> (r: Option<HandlerReply>)
        requires
            old(self).wf(),
        ensures
            final(self).wf(),
            final(self).pending_commands == old(self).pending_commands,
            final(self).targets == old(self).targets,
            final(self).sessions == old(self).sessions,
            final(self).conn == old(self).conn,
            final(self).next_navigation_id == old(self).next_navigation_id,
            final(self).config == old(self).config,
            (match Self::find_nav_idx(old(self).navigations@, Self::nav_res_id(*res), 0) {
                None => final(self).navigations == old(self).navigations && r is None,
                Some(j) => {
                    let entry = old(self).navigations@[j];
                    match *res {
                        Ok(_) => {
                            if entry.1.response is Some {
                                &&& final(self).navigations@ == old(self).navigations@.remove(j)
                                &&& r == Some(
                                    HandlerReply::Resp(entry.1.tx, entry.1.response.unwrap()),
                                )
                            } else {
                                &&& final(self).navigations@ == old(self).navigations@.update(
                                    j,
                                    (entry.0, NavigationInProgress { navigated: true, ..entry.1 }),
                                )
                                &&& r is None
                            }
                        },
                        Err(e) => {
                            &&& final(self).navigations@ == old(self).navigations@.remove(j)
                            &&& r == Some(
                                match e {
                                    NavigationError::Timeout { .. } => HandlerReply::Timeout(
                                        entry.1.tx,
                                    ),
                                    NavigationError::FrameNotFound { .. } => HandlerReply::NotFound(
                                        entry.1.tx,
                                    ),
                                },
                            )
                        },
                    }
                },
            }),
    {
        let id = match res {
            Ok(ok) => ok.navigation_id(),
            Err(err) => err.navigation_id(),
        };
        proof {
            assert(id == Self::nav_res_id(*res));
        }
        let j = match self.find_nav_at(&id) {
            Some(j) => j,
            None => {
                return None;
            },
        };
        match res {
            Ok(_) => {
                if self.navigations[j].1.response.is_some() {
                    let (_, nav) = self.navigations.remove(j);
                    let resp = match nav.response {
                        Some(r2) => r2,
                        None => {
                            proof {
                                assert(false);
                            }
                            Response { id: CallId(0), result: None, error: None }
                        },
                    };
                    Some(HandlerReply::Resp(nav.tx, resp))
                } else {
                    let entry = &mut self.navigations[j];
                    entry.1.navigated = true;
                    proof {
                        assert(self.navigations@ =~= old(self).navigations@.update(
                            j as int,
                            (old(self).navigations@[j as int].0, NavigationInProgress {
                                navigated: true,
                                ..old(self).navigations@[j as int].1
                            }),
                        ));
                    }
                    None
                }
            },
            Err(e) => {
                let (_, nav) = self.navigations.remove(j);
                match e {
                    NavigationError::Timeout { .. } => Some(HandlerReply::Timeout(nav.tx)),
                    NavigationError::FrameNotFound { .. } => Some(HandlerReply::NotFound(nav.tx)),
                }
            },
        }
    }

    /// Submits a caller's command: the connection queues it under a fresh
    /// call id and the in-flight map gains the entry that routes its
    /// eventual response back to the caller, stamped with `now` for
    /// eviction.  Nothing else moves.
    pub fn submit_external_command(&mut self, msg: CommandMessage, now: u64)
        requires
            old(self).wf(),
        ensures
            final(self).wf(),
            final(self).conn.queued() == old(self).conn.queued().push(
                (crate::types::MethodCall {
                    id: CallId(old(self).conn.next_id),
                    method: msg.method,
                    session_id: msg.session_id,
                    params: msg.params,
                }),
            ),
            final(self).conn.next_id == crate::conn::wrap_succ(old(self).conn.next_id),
            final(self).pending_commands@ == old(self).pending_commands@.push(
                (
                    CallId(old(self).conn.next_id),
                    PendingRequest::ExternalCommand(msg.sender),
                    msg.method,
                    now,
                ),
            ),
            final(self).targets == old(self).targets,
            final(self).sessions == old(self).sessions,
            final(self).navigations == old(self).navigations,
            final(self).next_navigation_id == old(self).next_navigation_id,
            final(self).config == old(self).config,
    {
        let method2 = msg.method.clone();
        let id = self.conn.submit_command(msg.method, msg.session_id, msg.params);
        self.pending_commands.push((id, PendingRequest::ExternalCommand(msg.sender), method2, now));
    }

    /// Submits a target's own initialization command, routed back to that
    /// target when its response arrives.
    pub fn submit_internal_command(&mut self, target_id: TargetId, req: Request, now: u64)
        requires
            old(self).wf(),
        ensures
            final(self).wf(),
            final(self).conn.queued() == old(self).conn.queued().push(
                (crate::types::MethodCall {
                    id: CallId(old(self).conn.next_id),
                    method: req.method,
                    session_id: req.session_id,
                    params: req.params,
                }),
            ),
            final(self).conn.next_id == crate::conn::wrap_succ(old(self).conn.next_id),
            final(self).pending_commands@ == old(self).pending_commands@.push(
                (
                    CallId(old(self).conn.next_id),
                    PendingRequest::InternalCommand(target_id),
                    req.method,
                    now,
                ),
            ),
            final(self).targets == old(self).targets,
            final(self).sessions == old(self).sessions,
            final(self).navigations == old(self).navigations,
            final(self).next_navigation_id == old(self).next_navigation_id,
            final(self).config == old(self).config,
    {
        let method2 = req.method.clone();
        let id = self.conn.submit_command(req.method, req.session_id, req.params);
        self.pending_commands.push((id, PendingRequest::InternalCommand(target_id), method2, now));
    }

    /// Submits a navigation request; its response is not handed to the
    /// caller directly but parked until the navigation completes.
    pub fn submit_navigation(&mut self, id: NavigationId, req: Request, now: u64)
        requires
            old(self).wf(),
        ensures
            final(self).wf(),
            final(self).conn.queued() == old(self).conn.queued().push(
                (crate::types::MethodCall {
                    id: CallId(old(self).conn.next_id),
                    method: req.method,
                    session_id: req.session_id,
                    params: req.params,
                }),
            ),
            final(self).conn.next_id == crate::conn::wrap_succ(old(self).conn.next_id),
            final(self).pending_commands@ == old(self).pending_commands@.push(
                (CallId(old(self).conn.next_id), PendingRequest::Navigate(id), req.method, now),
            ),
            final(self).targets == old(self).targets,
            final(self).sessions == old(self).sessions,
            final(self).navigations == old(self).navigations,
            final(self).next_navigation_id == old(self).next_navigation_id,
            final(self).config == old(self).config,
    {
        let method2 = req.method.clone();
        let call = self.conn.submit_command(req.method, req.session_id, req.params);
        self.pending_commands.push((call, PendingRequest::Navigate(id), method2, now));
    }

    /// A command from a target's page handle.  A navigation (with the URL
    /// the typed codec decoded from it) allocates the next navigation id,
    /// queues the goto on that target and parks the caller with the new
    /// navigation entry; anything else is submitted as the caller's command.
    pub fn on_target_message(
        &mut self,
        ti: usize,
        msg: CommandMessage,
        nav_url: Option<String>,
        now: u64,
    )
        requires
            old(self).wf(),
            ti < old(self).targets@.len(),
        ensures
            final(self).wf(),
            (if msg.method@ == "Page.navigate"@ && nav_url is Some {
                &&& final(self).next_navigation_id == crate::conn::wrap_succ(
                    old(self).next_navigation_id,
                )
                &&& final(self).navigations@ == old(self).navigations@.push(
                    (
                        NavigationId(old(self).next_navigation_id),
                        NavigationInProgress { navigated: false, response: None, tx: msg.sender },
                    ),
                )
                &&& final(self).targets@.len() == old(self).targets@.len()
                &&& crate::frame::FrameManager::goto_rel(
                    old(self).targets@[ti as int].frame_manager,
                    final(self).targets@[ti as int].frame_manager,
                    (NavigationRequest {
                        id: NavigationId(old(self).next_navigation_id),
                        referer: None,
                        url: nav_url.unwrap(),
                    }),
                )
                &&& forall|j: int|
                    0 <= j < old(self).targets@.len() && j != ti ==> final(self).targets@[j] == old(
                        self,
                    ).targets@[j]
                &&& final(self).conn == old(self).conn
                &&& final(self).pending_commands == old(self).pending_commands
                &&& final(self).sessions == old(self).sessions
            } else {
                &&& final(self).conn.queued() == old(self).conn.queued().push(
                    (crate::types::MethodCall {
                        id: CallId(old(self).conn.next_id),
                        method: msg.method,
                        session_id: msg.session_id,
                        params: msg.params,
                    }),
                )
                &&& final(self).pending_commands@ == old(self).pending_commands@.push(
                    (
                        CallId(old(self).conn.next_id),
                        PendingRequest::ExternalCommand(msg.sender),
                        msg.method,
                        now,
                    ),
                )
                &&& final(self).targets == old(self).targets
                &&& final(self).sessions == old(self).sessions
                &&& final(self).navigations == old(self).navigations
                &&& final(self).next_navigation_id == old(self).next_navigation_id
            }),
    {
        if msg.is_navigation() && nav_url.is_some() {
            let url = match nav_url {
                Some(u) => u,
                None => {
                    proof {
                        assert(false);
                    }
                    String::new()
                },
            };
            let id = NavigationId(self.next_navigation_id);
            self.next_navigation_id = if self.next_navigation_id == usize::MAX {
                0
            } else {
                self.next_navigation_id + 1
            };
            let t = &mut self.targets[ti];
            t.goto(NavigationRequest { id, referer: None, url });
            self.navigations.push(
                (id, NavigationInProgress { navigated: false, response: None, tx: msg.sender }),
            );
        } else {
            self.submit_external_command(msg, now);
        }
    }

    /// Asks the browser for a new page: submits `Target.createTarget` and
    /// parks the caller with the entry — the initiator is wired into the
    /// created target once the response names it.
    pub fn create_page(&mut self, params: crate::cdp::target::CreateTargetParams, tx: CallerId, now: u64)
        requires
            old(self).wf(),
        ensures
            final(self).wf(),
            final(self).conn.queued().len() == old(self).conn.queued().len() + 1,
            ({
                let q = final(self).conn.queued().last();
                &&& q.id == CallId(old(self).conn.next_id)
                &&& q.method@ == "Target.createTarget"@
                &&& q.session_id is None
                &&& q.params@ == "{\"url\":"@ + crate::json::json_string(params.url@) + "}"@
            }),
            final(self).conn.queued().take(old(self).conn.queued().len() as int) == old(
                self,
            ).conn.queued(),
            final(self).conn.next_id == crate::conn::wrap_succ(old(self).conn.next_id),
            final(self).pending_commands@.len() == old(self).pending_commands@.len() + 1,
            ({
                let e = final(self).pending_commands@.last();
                &&& e.0 == CallId(old(self).conn.next_id)
                &&& e.1 == PendingRequest::CreateTarget(tx)
                &&& e.2@ == "Target.createTarget"@
                &&& e.3 == now
            }),
            final(self).pending_commands@.take(old(self).pending_commands@.len() as int) == old(
                self,
            ).pending_commands@,
            final(self).targets == old(self).targets,
            final(self).sessions == old(self).sessions,
            final(self).navigations == old(self).navigations,
            final(self).next_navigation_id == old(self).next_navigation_id,
            final(self).config == old(self).config,
    {
        let method = crate::cdp::target::CreateTargetParams::identifier();
        let method2 = method.clone();
        let json = params.to_json();
        let id = self.conn.submit_command(method, None, json);
        self.pending_commands.push((id, PendingRequest::CreateTarget(tx), method2, now));
        proof {
            assert(self.pending_commands@.take(old(self).pending_commands@.len() as int) =~= old(
                self,
            ).pending_commands@);
        }
    }

    /// Sweeps the in-flight map at time `now`: every entry whose response
    /// window has passed is evicted, and each evicted entry that a caller
    /// waits on (a command or a create-target request) yields a timeout
    /// owed to that caller.  An evicted navigation entry yields no reply
    /// here: the navigation's own deadline fails its caller through the
    /// frame manager.  Entries within their window survive.
    pub fn evict_timed_out(&mut self, now: u64) -> (r: Vec<HandlerReply>)
        requires
            old(self).wf(),
        ensures
            final(self).wf(),
            forall|j: int|
                0 <= j < final(self).pending_commands@.len() ==> now <= crate::cmd::deadline_after(
                    (#[trigger] final(self).pending_commands@[j]).3,
                    REQUEST_TIMEOUT,
                ) && old(self).pending_commands@.contains(final(self).pending_commands@[j]),
            forall|j: int|
                0 <= j < old(self).pending_commands@.len() && now <= crate::cmd::deadline_after(
                    (#[trigger] old(self).pending_commands@[j]).3,
                    REQUEST_TIMEOUT,
                ) ==> final(self).pending_commands@.contains(old(self).pending_commands@[j]),
            forall|j: int|
                0 <= j < old(self).pending_commands@.len() && now > crate::cmd::deadline_after(
                    (#[trigger] old(self).pending_commands@[j]).3,
                    REQUEST_TIMEOUT,
                ) ==> (match old(self).pending_commands@[j].1 {
                    PendingRequest::ExternalCommand(tx) => r@.contains(HandlerReply::Timeout(tx)),
                    PendingRequest::CreateTarget(tx) => r@.contains(HandlerReply::Timeout(tx)),
                    _ => true,
                }),
            final(self).targets == old(self).targets,
            final(self).sessions == old(self).sessions,
            final(self).navigations == old(self).navigations,
            final(self).conn == old(self).conn,
            final(self).next_navigation_id == old(self).next_navigation_id,
            final(self).config == old(self).config,
    {
        let mut kept: Vec<(CallId, PendingRequest, String, u64)> = Vec::new();
        let mut replies: Vec<HandlerReply> = Vec::new();
        let ghost pre = self.pending_commands@;
        let ghost t: int = 0;
        while self.pending_commands.len() > 0
            invariant
                0 <= t <= pre.len(),
                self.pending_commands@ == pre.skip(t),
                self.targets == old(self).targets,
                self.sessions == old(self).sessions,
                self.navigations == old(self).navigations,
                self.conn == old(self).conn,
                self.next_navigation_id == old(self).next_navigation_id,
                self.config == old(self).config,
                old(self).wf(),
                forall|j: int|
                    0 <= j < kept@.len() ==> now <= crate::cmd::deadline_after(
                        (#[trigger] kept@[j]).3,
                        REQUEST_TIMEOUT,
                    ) && pre.contains(kept@[j]),
                forall|j: int|
                    0 <= j < t && now <= crate::cmd::deadline_after(
                        (#[trigger] pre[j]).3,
                        REQUEST_TIMEOUT,
                    ) ==> kept@.contains(pre[j]),
                forall|j: int|
                    0 <= j < t && now > crate::cmd::deadline_after(
                        (#[trigger] pre[j]).3,
                        REQUEST_TIMEOUT,
                    ) ==> (match pre[j].1 {
                        PendingRequest::ExternalCommand(tx) => replies@.contains(
                            HandlerReply::Timeout(tx),
                        ),
                        PendingRequest::CreateTarget(tx) => replies@.contains(
                            HandlerReply::Timeout(tx),
                        ),
                        _ => true,
                    }),
            decreases pre.len() - t,
        {
            let e = self.pending_commands.remove(0);
            proof {
                assert(e == pre[t]);
                assert(self.pending_commands@ =~= pre.skip(t + 1));
            }
            let ghost kept0 = kept@;
            let ghost replies0 = replies@;
            let deadline = if e.3 <= u64::MAX - REQUEST_TIMEOUT {
                e.3 + REQUEST_TIMEOUT
            } else {
                u64::MAX
            };
            if now > deadline {
                match e.1 {
                    PendingRequest::ExternalCommand(tx) => {
                        replies.push(HandlerReply::Timeout(tx));
                    },
                    PendingRequest::CreateTarget(tx) => {
                        replies.push(HandlerReply::Timeout(tx));
                    },
                    _ => {},
                }
            } else {
                kept.push(e);
            }
            proof {
                assert forall|j: int|
                    0 <= j < t + 1 && now <= crate::cmd::deadline_after(
                        (#[trigger] pre[j]).3,
                        REQUEST_TIMEOUT,
                    ) implies kept@.contains(pre[j]) by {
                    if j < t {
                        let w = choose|w: int| 0 <= w < kept0.len() && kept0[w] == pre[j];
                        assert(kept@[w] == pre[j]);
                    } else {
                        assert(kept@[kept@.len() - 1] == pre[j]);
                    }
                }
                assert forall|j: int|
                    0 <= j < t + 1 && now > crate::cmd::deadline_after(
                        (#[trigger] pre[j]).3,
                        REQUEST_TIMEOUT,
                    ) implies (match pre[j].1 {
                    PendingRequest::ExternalCommand(tx) => replies@.contains(
                        HandlerReply::Timeout(tx),
                    ),
                    PendingRequest::CreateTarget(tx) => replies@.contains(
                        HandlerReply::Timeout(tx),
                    ),
                    _ => true,
                }) by {
                    if j < t {
                        match pre[j].1 {
                            PendingRequest::ExternalCommand(tx) => {
                                let w = choose|w: int|
                                    0 <= w < replies0.len() && replies0[w] == HandlerReply::Timeout(
                                        tx,
                                    );
                                assert(replies@[w] == HandlerReply::Timeout(tx));
                            },
                            PendingRequest::CreateTarget(tx) => {
                                let w = choose|w: int|
                                    0 <= w < replies0.len() && replies0[w] == HandlerReply::Timeout(
                                        tx,
                                    );
                                assert(replies@[w] == HandlerReply::Timeout(tx));
                            },
                            _ => {},
                        }
                    } else {
                        match pre[j].1 {
                            PendingRequest::ExternalCommand(tx) => {
                                assert(replies@[replies@.len() - 1] == HandlerReply::Timeout(tx));
                            },
                            PendingRequest::CreateTarget(tx) => {
                                assert(replies@[replies@.len() - 1] == HandlerReply::Timeout(tx));
                            },
                            _ => {},
                        }
                    }
                }
                t = t + 1;
            }
        }
        proof {
            assert(pre.skip(t) =~= Seq::<(CallId, PendingRequest, String, u64)>::empty());
            assert(t == pre.len());
        }
        self.pending_commands = kept;
        replies
    }

    /// What the four target lifecycle events and the fallback do to the
    /// maps when no session routes the event.
    pub open spec fn global_dispatch_rel(pre: Handler, post: Handler, event: CdpEventMessage) -> bool {
        match event.params {
            CdpEvent::TargetTargetCreated(ev) => Self::created_rel(pre, post, ev),
            CdpEvent::TargetAttachedToTarget(ev) => Self::attached_rel(pre, post, ev),
            CdpEvent::TargetDetachedFromTarget(ev) => Self::detached_rel(pre, post, ev),
            CdpEvent::TargetTargetDestroyed(ev) => Self::destroyed_rel(pre, post, ev),
            _ => {
                &&& post.targets == pre.targets
                &&& post.sessions == pre.sessions
                &&& post.navigations == pre.navigations
                &&& post.pending_commands == pre.pending_commands
                &&& post.conn == pre.conn
                &&& post.next_navigation_id == pre.next_navigation_id
                &&& post.config == pre.config
            },
        }
    }

    /// Routes an event.  One carrying a session tracked at the time reaches
    /// exactly that session's target, which changes per
    /// [`Target::on_event_rel`]; no browser-global handling runs and the
    /// maps stay as they were.  Otherwise the four target lifecycle events
    /// mutate the target and session maps per their handlers, and anything
    /// else changes nothing.
    pub fn on_event(&mut self, event: &CdpEventMessage)
        requires
            old(self).wf(),
        ensures
            final(self).wf(),
            final(self).pending_commands == old(self).pending_commands,
            final(self).conn == old(self).conn,
            final(self).next_navigation_id == old(self).next_navigation_id,
            final(self).config == old(self).config,
            (match event.session_id {
                Some(sid) => (match Self::find_session_idx(old(self).sessions@, sid@, 0) {
                    Some(si) => (match Self::find_target_idx(
                        old(self).targets@,
                        old(self).sessions@[si].target_id.0@,
                        0,
                    ) {
                        Some(ti) => {
                            &&& final(self).sessions == old(self).sessions
                            &&& final(self).navigations == old(self).navigations
                            &&& final(self).targets@.len() == old(self).targets@.len()
                            &&& Target::on_event_rel(
                                old(self).targets@[ti],
                                final(self).targets@[ti],
                                *event,
                            )
                            &&& forall|j: int|
                                0 <= j < old(self).targets@.len() && j != ti
                                    ==> final(self).targets@[j] == old(self).targets@[j]
                        },
                        None => Self::global_dispatch_rel(*old(self), *final(self), *event),
                    }),
                    None => Self::global_dispatch_rel(*old(self), *final(self), *event),
                }),
                None => Self::global_dispatch_rel(*old(self), *final(self), *event),
            }),
    {
        let sid_opt = match &event.session_id {
            Some(s) => Some(s.clone()),
            None => None,
        };
        match &sid_opt {
            Some(sid) => {
                match self.find_session(sid.as_str()) {
                    Some(si) => {
                        let tid = self.sessions[si].target_id.clone();
                        match self.find_target(&tid) {
                            Some(ti) => {
                                let t = &mut self.targets[ti];
                                t.on_event(event);
                                return ;
                            },
                            None => {},
                        }
                    },
                    None => {},
                }
            },
            None => {},
        }
        match &event.params {
            CdpEvent::TargetTargetCreated(ev) => self.on_target_created(ev),
            CdpEvent::TargetAttachedToTarget(ev) => self.on_attached_to_target(ev),
            CdpEvent::TargetDetachedFromTarget(ev) => self.on_detached_from_target(ev),
            CdpEvent::TargetTargetDestroyed(ev) => self.on_target_destroyed(ev),
            _ => {},
        }
    }

    /// What tracking a created target does: one new target at the back,
    /// idle — attach phase, no session, no initiator, initialization not
    /// started, nothing tracked yet — and nothing else moves.
    pub open spec fn created_rel(
        pre: Handler,
        post: Handler,
        ev: crate::cdp::target::EventTargetCreated,
    ) -> bool {
        &&& post.targets@.len() == pre.targets@.len() + 1
        &&& post.targets@.last().info == ev.target_info
        &&& post.targets@.last().session_id is None
        &&& post.targets@.last().init_state is AttachToTarget
        &&& post.targets@.last().initiator is None
        &&& !post.targets@.last().initialize
        &&& post.targets@.last().queued_events@.len() == 0
        &&& post.targets@.last().wait_until_frame_loaded@.len() == 0
        &&& post.targets@.last().frame_manager.frames@.len() == 0
        &&& post.targets@.last().frame_manager.main_frame is None
        &&& post.targets@.take(pre.targets@.len() as int) == pre.targets@
        &&& post.sessions == pre.sessions
        &&& post.pending_commands == pre.pending_commands
        &&& post.conn == pre.conn
        &&& post.navigations == pre.navigations
        &&& post.next_navigation_id == pre.next_navigation_id
        &&& post.config == pre.config
    }

    /// A target was created: it is tracked from now on, idle until its
    /// initialization is requested.
    pub fn on_target_created(&mut self, ev: &crate::cdp::target::EventTargetCreated)
        requires
            old(self).wf(),
        ensures
            final(self).wf(),
            Self::created_rel(*old(self), *final(self), *ev),
    {
        let info = crate::cdp::target::TargetInfo {
            target_id: ev.target_info.target_id.clone(),
            target_type: ev.target_info.target_type.clone(),
            title: ev.target_info.title.clone(),
            url: ev.target_info.url.clone(),
            attached: ev.target_info.attached,
            opener_id: match &ev.target_info.opener_id {
                Some(o) => Some(o.clone()),
                None => None,
            },
            browser_context_id: match &ev.target_info.browser_context_id {
                Some(b) => Some(b.clone()),
                None => None,
            },
        };
        proof {
            assert(info == ev.target_info);
        }
        let config = TargetConfig {
            ignore_https_errors: self.config.ignore_https_errors,
            viewport: self.config.viewport,
        };
        let t = Target::new(info, config, crate::browser::BrowserContext::new());
        self.targets.push(t);
        proof {
            assert(self.targets@.take(old(self).targets@.len() as int) =~= old(self).targets@);
        }
    }

    /// What attaching a session does: the session map gains (or, for a
    /// repeated session id, replaces in place) the mapping to the reported
    /// target, the named target learns its session id, and nothing else
    /// moves.
    pub open spec fn attached_rel(
        pre: Handler,
        post: Handler,
        ev: crate::cdp::target::EventAttachedToTarget,
    ) -> bool {
        &&& (match Self::find_session_idx(pre.sessions@, ev.session_id.0@, 0) {
            Some(si) => post.sessions@ == pre.sessions@.update(
                si,
                (Session {
                    id: ev.session_id,
                    target_type: ev.target_info.target_type,
                    target_id: ev.target_info.target_id,
                }),
            ),
            None => post.sessions@ == pre.sessions@.push(
                (Session {
                    id: ev.session_id,
                    target_type: ev.target_info.target_type,
                    target_id: ev.target_info.target_id,
                }),
            ),
        })
        &&& (match Self::find_target_idx(pre.targets@, ev.target_info.target_id.0@, 0) {
            Some(ti) => post.targets@ == pre.targets@.update(
                ti,
                (Target { session_id: Some(ev.session_id), ..pre.targets@[ti] }),
            ),
            None => post.targets == pre.targets,
        })
        &&& post.pending_commands == pre.pending_commands
        &&& post.conn == pre.conn
        &&& post.navigations == pre.navigations
        &&& post.next_navigation_id == pre.next_navigation_id
        &&& post.config == pre.config
    }

    /// A session attached to a target: the session is tracked (a repeated
    /// session id replaces its entry rather than duplicating it) and the
    /// target learns its session id, so later events carrying this session
    /// reach it.
    pub fn on_attached_to_target(&mut self, ev: &crate::cdp::target::EventAttachedToTarget)
        requires
            old(self).wf(),
        ensures
            final(self).wf(),
            Self::attached_rel(*old(self), *final(self), *ev),
    {
        let session = Session::new(
            ev.session_id.clone(),
            ev.target_info.target_type.clone(),
            ev.target_info.target_id.clone(),
        );
        proof {
            assert(session =~= (Session {
                id: ev.session_id,
                target_type: ev.target_info.target_type,
                target_id: ev.target_info.target_id,
            }));
        }
        match self.find_target(&ev.target_info.target_id) {
            Some(ti) => {
                let t = &mut self.targets[ti];
                t.set_session_id(ev.session_id.clone());
            },
            None => {},
        }
        match self.find_session(ev.session_id.0.as_str()) {
            Some(si) => {
                self.sessions[si] = session;
            },
            None => {
                self.sessions.push(session);
            },
        }
    }

    /// What detaching a session does: every session entry under that id is
    /// gone, every other session survives, the first-listed target of that
    /// session forgets its session id, and nothing else moves.
    pub open spec fn detached_rel(
        pre: Handler,
        post: Handler,
        ev: crate::cdp::target::EventDetachedFromTarget,
    ) -> bool {
        &&& (forall|j: int|
            0 <= j < post.sessions@.len() ==> (#[trigger] post.sessions@[j]).id.0@
                != ev.session_id.0@ && pre.sessions@.contains(post.sessions@[j]))
        &&& (forall|j: int|
            0 <= j < pre.sessions@.len() && (#[trigger] pre.sessions@[j]).id.0@
                != ev.session_id.0@ ==> post.sessions@.contains(pre.sessions@[j]))
        &&& (match Self::find_session_idx(pre.sessions@, ev.session_id.0@, 0) {
            Some(si) => (match Self::find_target_idx(
                pre.targets@,
                pre.sessions@[si].target_id.0@,
                0,
            ) {
                Some(ti) => post.targets@ == pre.targets@.update(
                    ti,
                    (Target { session_id: None, ..pre.targets@[ti] }),
                ),
                None => post.targets == pre.targets,
            }),
            None => post.targets == pre.targets,
        })
        &&& post.pending_commands == pre.pending_commands
        &&& post.conn == pre.conn
        &&& post.navigations == pre.navigations
        &&& post.next_navigation_id == pre.next_navigation_id
        &&& post.config == pre.config
    }

    /// The session was detached from its target: it stops being tracked, so
    /// events carrying it no longer reach any target, and the target
    /// forgets the session.
    pub fn on_detached_from_target(&mut self, ev: &crate::cdp::target::EventDetachedFromTarget)
        requires
            old(self).wf(),
        ensures
            final(self).wf(),
            Self::detached_rel(*old(self), *final(self), *ev),
    {
        let tid = match self.find_session(ev.session_id.0.as_str()) {
            Some(si) => Some(self.sessions[si].target_id.clone()),
            None => None,
        };
        let mut kept: Vec<Session> = Vec::new();
        let ghost pre_sessions = self.sessions@;
        let ghost t: int = 0;
        while self.sessions.len() > 0
            invariant
                0 <= t <= pre_sessions.len(),
                self.sessions@ == pre_sessions.skip(t),
                self.targets == old(self).targets,
                self.conn == old(self).conn,
                self.pending_commands == old(self).pending_commands,
                self.navigations == old(self).navigations,
                self.next_navigation_id == old(self).next_navigation_id,
                self.config == old(self).config,
                old(self).wf(),
                forall|j: int|
                    0 <= j < kept@.len() ==> (#[trigger] kept@[j]).id.0@ != ev.session_id.0@
                        && pre_sessions.contains(kept@[j]),
                forall|j: int|
                    0 <= j < t && (#[trigger] pre_sessions[j]).id.0@ != ev.session_id.0@
                        ==> kept@.contains(pre_sessions[j]),
            decreases pre_sessions.len() - t,
        {
            let s0 = self.sessions.remove(0);
            proof {
                assert(s0 == pre_sessions[t]);
                assert(self.sessions@ =~= pre_sessions.skip(t + 1));
            }
            let ghost kept0 = kept@;
            if !crate::strutil::str_eq(s0.id.0.as_str(), ev.session_id.0.as_str()) {
                kept.push(s0);
            }
            proof {
                assert forall|j: int|
                    0 <= j < t + 1 && (#[trigger] pre_sessions[j]).id.0@
                        != ev.session_id.0@ implies kept@.contains(pre_sessions[j]) by {
                    if j < t {
                        let w = choose|w: int| 0 <= w < kept0.len() && kept0[w] == pre_sessions[j];
                        assert(kept@[w] == pre_sessions[j]);
                    } else {
                        assert(kept@[kept@.len() - 1] == pre_sessions[j]);
                    }
                }
                t = t + 1;
            }
        }
        proof {
            assert(pre_sessions.skip(t) =~= Seq::<Session>::empty());
            assert(t == pre_sessions.len());
        }
        self.sessions = kept;
        match tid {
            Some(tg) => {
                match self.find_target(&tg) {
                    Some(ti) => {
                        let tr = &mut self.targets[ti];
                        tr.clear_session();
                    },
                    None => {},
                }
            },
            None => {},
        }
    }

    /// What destroying a target does: every target under that id is gone
    /// and so is every session attached to it (the cascading removal);
    /// every other target and session survives; nothing else moves.
    /// Destroying an untracked id changes nothing.
    pub open spec fn destroyed_rel(
        pre: Handler,
        post: Handler,
        ev: crate::cdp::target::EventTargetDestroyed,
    ) -> bool {
        &&& (if Self::find_target_idx(pre.targets@, ev.target_id.0@, 0) is None {
            post.targets == pre.targets && post.sessions == pre.sessions
        } else {
            &&& (forall|j: int|
                0 <= j < post.targets@.len() ==> (#[trigger] post.targets@[j]).info.target_id.0@
                    != ev.target_id.0@ && pre.targets@.contains(post.targets@[j]))
            &&& (forall|j: int|
                0 <= j < pre.targets@.len() && (#[trigger] pre.targets@[j]).info.target_id.0@
                    != ev.target_id.0@ ==> post.targets@.contains(pre.targets@[j]))
            &&& (forall|j: int|
                0 <= j < post.sessions@.len() ==> (#[trigger] post.sessions@[j]).target_id.0@
                    != ev.target_id.0@ && pre.sessions@.contains(post.sessions@[j]))
            &&& (forall|j: int|
                0 <= j < pre.sessions@.len() && (#[trigger] pre.sessions@[j]).target_id.0@
                    != ev.target_id.0@ ==> post.sessions@.contains(pre.sessions@[j]))
        })
        &&& post.pending_commands == pre.pending_commands
        &&& post.conn == pre.conn
        &&& post.navigations == pre.navigations
        &&& post.next_navigation_id == pre.next_navigation_id
        &&& post.config == pre.config
    }

    /// A target was destroyed: it stops being tracked, and its sessions are
    /// removed with it.
    pub fn on_target_destroyed(&mut self, ev: &crate::cdp::target::EventTargetDestroyed)
        requires
            old(self).wf(),
        ensures
            final(self).wf(),
            Self::destroyed_rel(*old(self), *final(self), *ev),
    {
        if self.find_target(&ev.target_id).is_none() {
            proof {
                assert forall|j: int|
                    0 <= j < self.targets@.len() implies self.targets@.contains(
                    #[trigger] self.targets@[j],
                ) by {
                    assert(0 <= j < self.targets@.len() && self.targets@[j] == self.targets@[j]);
                }
                assert forall|j: int|
                    0 <= j < self.sessions@.len() implies self.sessions@.contains(
                    #[trigger] self.sessions@[j],
                ) by {
                    assert(0 <= j < self.sessions@.len() && self.sessions@[j]
                        == self.sessions@[j]);
                }
            }
            return ;
        }
        let mut kept: Vec<Target> = Vec::new();
        let ghost pre_targets = self.targets@;
        let ghost t: int = 0;
        while self.targets.len() > 0
            invariant
                0 <= t <= pre_targets.len(),
                self.targets@ == pre_targets.skip(t),
                self.sessions == old(self).sessions,
                self.conn == old(self).conn,
                self.pending_commands == old(self).pending_commands,
                self.navigations == old(self).navigations,
                self.next_navigation_id == old(self).next_navigation_id,
                self.config == old(self).config,
                forall|i: int| 0 <= i < pre_targets.len() ==> (#[trigger] pre_targets[i]).wf(),
                forall|j: int|
                    0 <= j < kept@.len() ==> (#[trigger] kept@[j]).info.target_id.0@
                        != ev.target_id.0@ && pre_targets.contains(kept@[j]) && kept@[j].wf(),
                forall|j: int|
                    0 <= j < t && (#[trigger] pre_targets[j]).info.target_id.0@ != ev.target_id.0@
                        ==> kept@.contains(pre_targets[j]),
            decreases pre_targets.len() - t,
        {
            let t0 = self.targets.remove(0);
            proof {
                assert(t0 == pre_targets[t]);
                assert(self.targets@ =~= pre_targets.skip(t + 1));
            }
            let ghost kept0 = kept@;
            if !t0.info.target_id.same(&ev.target_id) {
                kept.push(t0);
            }
            proof {
                assert forall|j: int|
                    0 <= j < t + 1 && (#[trigger] pre_targets[j]).info.target_id.0@
                        != ev.target_id.0@ implies kept@.contains(pre_targets[j]) by {
                    if j < t {
                        let w = choose|w: int| 0 <= w < kept0.len() && kept0[w] == pre_targets[j];
                        assert(kept@[w] == pre_targets[j]);
                    } else {
                        assert(kept@[kept@.len() - 1] == pre_targets[j]);
                    }
                }
                t = t + 1;
            }
        }
        proof {
            assert(pre_targets.skip(t) =~= Seq::<Target>::empty());
            assert(t == pre_targets.len());
        }
        self.targets = kept;
        let mut kept_s: Vec<Session> = Vec::new();
        let ghost pre_sessions = self.sessions@;
        let ghost mid_targets = self.targets@;
        let ghost u: int = 0;
        while self.sessions.len() > 0
            invariant
                0 <= u <= pre_sessions.len(),
                self.sessions@ == pre_sessions.skip(u),
                self.targets@ == mid_targets,
                self.conn == old(self).conn,
                self.pending_commands == old(self).pending_commands,
                self.navigations == old(self).navigations,
                self.next_navigation_id == old(self).next_navigation_id,
                self.config == old(self).config,
                forall|i: int| 0 <= i < mid_targets.len() ==> (#[trigger] mid_targets[i]).wf(),
                forall|j: int|
                    0 <= j < kept_s@.len() ==> (#[trigger] kept_s@[j]).target_id.0@
                        != ev.target_id.0@ && pre_sessions.contains(kept_s@[j]),
                forall|j: int|
                    0 <= j < u && (#[trigger] pre_sessions[j]).target_id.0@ != ev.target_id.0@
                        ==> kept_s@.contains(pre_sessions[j]),
            decreases pre_sessions.len() - u,
        {
            let s0 = self.sessions.remove(0);
            proof {
                assert(s0 == pre_sessions[u]);
                assert(self.sessions@ =~= pre_sessions.skip(u + 1));
            }
            let ghost kept0 = kept_s@;
            if !s0.target_id.same(&ev.target_id) {
                kept_s.push(s0);
            }
            proof {
                assert forall|j: int|
                    0 <= j < u + 1 && (#[trigger] pre_sessions[j]).target_id.0@
                        != ev.target_id.0@ implies kept_s@.contains(pre_sessions[j]) by {
                    if j < u {
                        let w = choose|w: int| 0 <= w < kept0.len() && kept0[w] == pre_sessions[j];
                        assert(kept_s@[w] == pre_sessions[j]);
                    } else {
                        assert(kept_s@[kept_s@.len() - 1] == pre_sessions[j]);
                    }
                }
                u = u + 1;
            }
        }
        proof {
            assert(pre_sessions.skip(u) =~= Seq::<Session>::empty());
            assert(u == pre_sessions.len());
        }
        self.sessions = kept_s;
    }
}

} // verus!
