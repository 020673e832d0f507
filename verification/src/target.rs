//! The per-target state machine: a strictly ordered initialization sequence
//! driven by command chains, event routing to the frame and network
//! managers, and the hand-over of the finished page to its initiator.

use vstd::prelude::*;
use vstd::string::StringExecFns;

use crate::browser::BrowserContext;
use crate::cdp::events::{CdpEvent, CdpEventMessage};
use crate::cdp::target::TargetInfo;
use crate::cmd::{
    deadline_after, spec_poll, CallerId, ChainPoll, CommandChain, CommandMessage, DeadlineExceeded,
    REQUEST_TIMEOUT,
};
use crate::cdp::runtime::ExecutionContextId;
use crate::domworld::DOMWorldKind;
use crate::emulation::EmulationManager;
use crate::frame::{
    load_milestone, FrameEvent, FrameManager, NavigationError, NavigationId, NavigationOk,
    NavigationRequest, UTILITY_WORLD_NAME,
};
use crate::network::NetworkManager;
use crate::strutil::str_eq;
use crate::types::{FrameId, Request, Response, SessionId, TargetId};

verus! {

/// The target's configuration.
#[derive(Debug)]
pub struct TargetConfig {
    /// Whether certificate errors are ignored.
    pub ignore_https_errors: bool,
    /// The viewport to emulate, if any.
    pub viewport: Option<crate::emulation::Viewport>,
}

impl TargetConfig {
    /// A configuration value.
    pub fn new(ignore_https_errors: bool, viewport: Option<crate::emulation::Viewport>) -> (r:
        TargetConfig)
        ensures
            r.ignore_https_errors == ignore_https_errors,
            r.viewport == viewport,
    {
        TargetConfig { ignore_https_errors, viewport }
    }
}

/// The kind of a target, from its reported type name.
#[derive(Debug)]
pub enum TargetType {
    /// A page (tab).
    Page,
    /// A background page.
    BackgroundPage,
    /// A service worker.
    ServiceWorker,
    /// A shared worker.
    SharedWorker,
    /// Another known kind.
    Other,
    /// The browser itself.
    Browser,
    /// A webview.
    Webview,
    /// An unrecognised kind, kept by name.
    Unknown(String),
}

impl TargetType {
    /// Classifies a reported type name.
    pub fn new(ty: &str) -> (r: TargetType)
        ensures
            ty@ == "page"@ ==> r is Page,
            ty@ == "background_page"@ ==> r is BackgroundPage,
            ty@ == "service_worker"@ ==> r is ServiceWorker,
            ty@ == "shared_worker"@ ==> r is SharedWorker,
            ty@ == "other"@ ==> r is Other,
            ty@ == "browser"@ ==> r is Browser,
            ty@ == "webview"@ ==> r is Webview,
            (ty@ != "page"@ && ty@ != "background_page"@ && ty@ != "service_worker"@ && ty@
                != "shared_worker"@ && ty@ != "other"@ && ty@ != "browser"@ && ty@ != "webview"@)
                ==> (r matches TargetType::Unknown(s) && s@ == ty@),
    {
        proof {
            reveal_strlit("page");
            reveal_strlit("background_page");
            reveal_strlit("service_worker");
            reveal_strlit("shared_worker");
            reveal_strlit("other");
            reveal_strlit("browser");
            reveal_strlit("webview");
            assert("page"@.len() == 4);
            assert("background_page"@.len() == 15);
            assert("service_worker"@.len() == 14);
            assert("shared_worker"@.len() == 13);
            assert("other"@.len() == 5);
            assert("browser"@.len() == 7);
            assert("webview"@.len() == 7);
            assert("browser"@[0] == 'b');
            assert("webview"@[0] == 'w');
        }
        if str_eq(ty, "page") {
            TargetType::Page
        } else if str_eq(ty, "background_page") {
            TargetType::BackgroundPage
        } else if str_eq(ty, "service_worker") {
            TargetType::ServiceWorker
        } else if str_eq(ty, "shared_worker") {
            TargetType::SharedWorker
        } else if str_eq(ty, "other") {
            TargetType::Other
        } else if str_eq(ty, "browser") {
            TargetType::Browser
        } else if str_eq(ty, "webview") {
            TargetType::Webview
        } else {
            TargetType::Unknown(ty.to_owned())
        }
    }

    /// Whether this is a page.
    pub fn is_page(&self) -> (r: bool)
        ensures
            r == (*self is Page),
    {
        matches!(self, TargetType::Page)
    }

    /// Whether this is a background page.
    pub fn is_background_page(&self) -> (r: bool)
        ensures
            r == (*self is BackgroundPage),
    {
        matches!(self, TargetType::BackgroundPage)
    }

    /// Whether this is a service worker.
    pub fn is_service_worker(&self) -> (r: bool)
        ensures
            r == (*self is ServiceWorker),
    {
        matches!(self, TargetType::ServiceWorker)
    }

    /// Whether this is a shared worker.
    pub fn is_shared_worker(&self) -> (r: bool)
        ensures
            r == (*self is SharedWorker),
    {
        matches!(self, TargetType::SharedWorker)
    }

    /// Whether this is another known kind.
    pub fn is_other(&self) -> (r: bool)
        ensures
            r == (*self is Other),
    {
        matches!(self, TargetType::Other)
    }

    /// Whether this is the browser itself.
    pub fn is_browser(&self) -> (r: bool)
        ensures
            r == (*self is Browser),
    {
        matches!(self, TargetType::Browser)
    }

    /// Whether this is a webview.
    pub fn is_webview(&self) -> (r: bool)
        ensures
            r == (*self is Webview),
    {
        matches!(self, TargetType::Webview)
    }
}

/// The initialization phase of a target, strictly ordered; each phase
/// before `Initialized` owns the command chain that drives it.
#[derive(Debug)]
pub enum TargetInit {
    /// Waiting for the attach request to be issued.
    AttachToTarget,
    /// Driving the frame-tracking setup.
    InitializingFrame(CommandChain),
    /// Driving the network setup.
    InitializingNetwork(CommandChain),
    /// Driving the page setup.
    InitializingPage(CommandChain),
    /// Driving the emulation setup (skipped without a viewport).
    InitializingEmulation(CommandChain),
    /// The sequence is complete.
    Initialized,
}

/// How far the initialization has come; the rank drops as phases advance.
pub open spec fn init_rank(s: TargetInit) -> int {
    match s {
        TargetInit::AttachToTarget => 5,
        TargetInit::InitializingFrame(_) => 4,
        TargetInit::InitializingNetwork(_) => 3,
        TargetInit::InitializingPage(_) => 2,
        TargetInit::InitializingEmulation(_) => 1,
        TargetInit::Initialized => 0,
    }
}

/// What a target reports from one poll.
#[derive(Debug)]
pub enum TargetEvent {
    /// An internal request to submit.
    Request(Request),
    /// An internal navigation request to submit.
    NavigationRequest(NavigationId, Request),
    /// A previously requested navigation finished.
    NavigationResult(Result<NavigationOk, NavigationError>),
    /// An internal request timed out.
    RequestTimeout(DeadlineExceeded),
    /// A command that arrived through the target's message channel.
    Command(CommandMessage),
    /// The target is initialized and its main frame loaded: the page is
    /// owed to this initiator, exactly once.
    PageReady(CallerId),
    /// A setup command timed out while this initiator waited for the page:
    /// the initiator is owed the failure rather than being parked forever.
    InitFailed(CallerId, DeadlineExceeded),
    /// A caller waiting for the frame to load is owed this answer: the
    /// frame's URL, or a not-found error when it has none.
    FrameLoaded(CallerId, Option<String>),
}

/// A request to read a frame's execution context.
#[derive(Debug)]
pub struct GetExecutionContext {
    /// Which world the context is read from.
    pub dom_world: DOMWorldKind,
    /// The frame to read, the main frame when absent.
    pub frame_id: Option<FrameId>,
    /// The caller the answer is owed to.
    pub tx: CallerId,
}

impl GetExecutionContext {
    /// A request for the main frame's main world.
    pub fn new(tx: CallerId) -> (r: GetExecutionContext)
        ensures
            r.dom_world is Main,
            r.frame_id is None,
            r.tx == tx,
    {
        GetExecutionContext { dom_world: DOMWorldKind::Main, frame_id: None, tx }
    }
}

/// A message a page handle sends to its target.
#[derive(Debug)]
pub enum TargetMessage {
    /// Execute a command within the session of this target.
    Command(CommandMessage),
    /// Ask for the main frame's identifier.
    MainFrame(CallerId),
    /// Ask for all frame identifiers.
    AllFrames(CallerId),
    /// Ask for the main frame's URL.
    Url(CallerId),
    /// Ask to be told when the frame finished loading.
    WaitForNavigation(CallerId),
    /// Ask for an execution context.
    GetExecutionContext(GetExecutionContext),
}

/// An immediate answer to a query message, owed to the named caller.
#[derive(Debug)]
pub enum TargetReply {
    /// The main frame's identifier.
    MainFrame(CallerId, Option<FrameId>),
    /// All frame identifiers.
    AllFrames(CallerId, Vec<FrameId>),
    /// The main frame's URL.
    Url(CallerId, Option<String>),
    /// An execution context.
    ExecutionContext(CallerId, Option<ExecutionContextId>),
}

/// The per-target state machine.
#[derive(Debug)]
#[verifier::ext_equal]
pub struct Target {
    /// The target's description as the browser reported it.
    pub info: TargetInfo,
    /// The target's kind.
    pub ttype: TargetType,
    /// The target's configuration.
    pub config: TargetConfig,
    /// Whether the target was marked closed.
    pub is_closed: bool,
    /// The context the target runs in.
    pub browser_context: BrowserContext,
    /// The tracker of this target's frames and navigations.
    pub frame_manager: FrameManager,
    /// The network satellite manager.
    pub network_manager: NetworkManager,
    /// The emulation satellite manager.
    pub emulation_manager: EmulationManager,
    /// The session this target is attached to, once attached.
    pub session_id: Option<SessionId>,
    /// The initialization phase.
    pub init_state: TargetInit,
    /// Events queued for the handler, oldest first.
    pub queued_events: Vec<TargetEvent>,
    /// Callers to be told when the main frame has loaded.
    pub wait_until_frame_loaded: Vec<CallerId>,
    /// The caller that requested this target's page, if it still waits.
    pub initiator: Option<CallerId>,
    /// Whether the target should run its initialization.
    pub initialize: bool,
}

impl Target {
    /// The target's chains and managers are well formed.
    pub open spec fn wf(&self) -> bool {
        &&& self.frame_manager.wf()
        &&& (match self.init_state {
            TargetInit::InitializingFrame(c) => c.wf(),
            TargetInit::InitializingNetwork(c) => c.wf(),
            TargetInit::InitializingPage(c) => c.wf(),
            TargetInit::InitializingEmulation(c) => c.wf(),
            _ => true,
        })
    }

    /// A new target for the reported description: nothing attached, the
    /// initialization not yet started.
    pub fn new(info: TargetInfo, config: TargetConfig, browser_context: BrowserContext) -> (r:
        Target)
        ensures
            r.wf(),
            r.config == config,
            r.is_closed == false,
            r.session_id is None,
            r.init_state is AttachToTarget,
            r.queued_events@.len() == 0,
            r.wait_until_frame_loaded@.len() == 0,
            r.initiator is None,
            !r.initialize,
            r.frame_manager.frames@.len() == 0,
            r.frame_manager.main_frame is None,
            r.frame_manager.pending_navigations@.len() == 0,
            r.frame_manager.navigation is None,
            r.info == info,
            info.target_type@ == "page"@ ==> r.ttype is Page,
            info.target_type@ == "background_page"@ ==> r.ttype is BackgroundPage,
            info.target_type@ == "service_worker"@ ==> r.ttype is ServiceWorker,
            info.target_type@ == "shared_worker"@ ==> r.ttype is SharedWorker,
            info.target_type@ == "other"@ ==> r.ttype is Other,
            info.target_type@ == "browser"@ ==> r.ttype is Browser,
            info.target_type@ == "webview"@ ==> r.ttype is Webview,
    {
        let network_manager = NetworkManager::new(config.ignore_https_errors);
        let ttype = TargetType::new(info.target_type.as_str());
        Target {
            info,
            ttype,
            config,
            is_closed: false,
            browser_context,
            frame_manager: FrameManager::new(),
            network_manager,
            emulation_manager: EmulationManager::new(),
            session_id: None,
            init_state: TargetInit::AttachToTarget,
            queued_events: Vec::new(),
            wait_until_frame_loaded: Vec::new(),
            initiator: None,
            initialize: false,
        }
    }

    /// Attaches the target to a session.
    pub fn set_session_id(&mut self, id: SessionId)
        ensures
            final(self).session_id == Some(id),
            *final(self) == (Target { session_id: Some(id), ..*old(self) }),
    {
        self.session_id = Some(id);
    }

    /// The session the target is attached to.
    pub fn session_id(&self) -> (r: &Option<SessionId>)
        ensures
            *r == self.session_id,
    {
        &self.session_id
    }

    /// Detaches the target from its session.
    pub fn clear_session(&mut self)
        ensures
            *final(self) == (Target { session_id: None, ..*old(self) }),
    {
        self.session_id = None;
    }

    /// The target's identifier.
    pub fn target_id(&self) -> (r: &TargetId)
        ensures
            *r == self.info.target_id,
    {
        &self.info.target_id
    }

    /// The target's kind.
    pub fn ttype(&self) -> (r: &TargetType)
        ensures
            *r == self.ttype,
    {
        &self.ttype
    }

    /// Whether the initialization sequence has completed.
    pub fn is_initialized(&self) -> (r: bool)
        ensures
            r == (self.init_state is Initialized),
    {
        matches!(self.init_state, TargetInit::Initialized)
    }

    /// The target's description.
    pub fn info(&self) -> (r: &TargetInfo)
        ensures
            *r == self.info,
    {
        &self.info
    }

    /// The target that opened this one, absent for top-level targets.
    pub fn opener(&self) -> (r: &Option<TargetId>)
        ensures
            *r == self.info.opener_id,
    {
        &self.info.opener_id
    }

    /// Queues a navigation of this target's main frame: exactly the entry
    /// [`FrameManager::goto`] appends, and nothing else of the target moves.
    pub fn goto(&mut self, req: NavigationRequest)
        requires
            old(self).wf(),
        ensures
            final(self).wf(),
            FrameManager::goto_rel(old(self).frame_manager, final(self).frame_manager, req),
            Self::same_outside_init(
                (Target { frame_manager: final(self).frame_manager, ..*old(self) }),
                *final(self),
            ),
            final(self).init_state == old(self).init_state,
            final(self).initiator == old(self).initiator,
            final(self).emulation_manager == old(self).emulation_manager,
    {
        self.frame_manager.goto(req);
    }

    /// Registers the caller that requested this target's page and starts
    /// the initialization.
    pub fn set_initiator(&mut self, tx: CallerId)
        ensures
            *final(self) == (Target { initiator: Some(tx), initialize: true, ..*old(self) }),
    {
        self.initiator = Some(tx);
        self.initialize = true;
    }

    /// Starts the initialization.
    pub fn start_initialize(&mut self)
        ensures
            *final(self) == (Target { initialize: true, ..*old(self) }),
    {
        self.initialize = true;
    }

    /// The commands that initialize the page phase, in order: auto-attach,
    /// performance, log.
    pub fn page_init_commands() -> (r: CommandChain)
        ensures
            r.wf(),
            r.waiting is None,
            r.timeout == REQUEST_TIMEOUT,
            r.pending().len() == 3,
            r.pending()[0].0@ == "Target.setAutoAttach"@ && r.pending()[0].1@
                == "{\"autoAttach\":true,\"waitForDebuggerOnStart\":true,\"flatten\":true}"@,
            r.pending()[1].0@ == "Performance.enable"@ && r.pending()[1].1@ == "{}"@,
            r.pending()[2].0@ == "Log.enable"@ && r.pending()[2].1@ == "{}"@,
    {
        let mut cmds: Vec<(String, String)> = Vec::new();
        cmds.push(
            ("Target.setAutoAttach".to_owned(),
            "{\"autoAttach\":true,\"waitForDebuggerOnStart\":true,\"flatten\":true}".to_owned()),
        );
        cmds.push(("Performance.enable".to_owned(), "{}".to_owned()));
        cmds.push(("Log.enable".to_owned(), "{}".to_owned()));
        CommandChain::new(cmds)
    }

    /// How the awaited slot of a chain reads after a response for `method`:
    /// cleared when it was awaiting that method, untouched otherwise.
    pub open spec fn chain_after_response(c: CommandChain, method: Seq<char>) -> CommandChain {
        CommandChain {
            waiting: (if c.waiting matches Some(w) && w.0@ == method {
                None
            } else {
                c.waiting
            }),
            ..c
        }
    }

    /// What a routed response does to the target: the active chain's
    /// awaited slot is cleared when the method matches it; a decoded frame
    /// tree under `Page.getFrameTree` is installed (the snapshot's root
    /// becomes the main frame when it carries no parent); everything else
    /// reads as before.
    pub open spec fn on_response_rel(
        pre: Target,
        post: Target,
        method: Seq<char>,
        tree: Option<crate::cdp::page::FrameTree>,
    ) -> bool {
        &&& post.session_id == pre.session_id
        &&& post.initiator == pre.initiator
        &&& post.initialize == pre.initialize
        &&& post.queued_events == pre.queued_events
        &&& post.wait_until_frame_loaded == pre.wait_until_frame_loaded
        &&& post.info == pre.info
        &&& post.ttype == pre.ttype
        &&& post.config == pre.config
        &&& post.is_closed == pre.is_closed
        &&& post.network_manager == pre.network_manager
        &&& post.emulation_manager == pre.emulation_manager
        &&& (match pre.init_state {
            TargetInit::InitializingFrame(c) => post.init_state
                == TargetInit::InitializingFrame(Self::chain_after_response(c, method)),
            TargetInit::InitializingNetwork(c) => post.init_state
                == TargetInit::InitializingNetwork(Self::chain_after_response(c, method)),
            TargetInit::InitializingPage(c) => post.init_state == TargetInit::InitializingPage(
                Self::chain_after_response(c, method),
            ),
            TargetInit::InitializingEmulation(c) => post.init_state
                == TargetInit::InitializingEmulation(Self::chain_after_response(c, method)),
            _ => post.init_state == pre.init_state,
        })
        &&& (match tree {
            Some(t) => {
                if method == "Page.getFrameTree"@ {
                    &&& (t.frame.parent_id is None ==> post.frame_manager.main_frame == Some(
                        t.frame.id,
                    ))
                    &&& (t.frame.parent_id is Some ==> post.frame_manager.main_frame
                        == pre.frame_manager.main_frame)
                    &&& (t.child_frames@.len() == 0 ==> FrameManager::navigated_rel(
                        pre.frame_manager,
                        post.frame_manager,
                        t.frame,
                    ))
                    &&& post.frame_manager.pending_navigations
                        == pre.frame_manager.pending_navigations
                    &&& post.frame_manager.navigation == pre.frame_manager.navigation
                    &&& post.frame_manager.timeout == pre.frame_manager.timeout
                    &&& post.frame_manager.isolated_world_sent
                        == pre.frame_manager.isolated_world_sent
                } else {
                    post.frame_manager == pre.frame_manager
                }
            },
            None => post.frame_manager == pre.frame_manager,
        })
    }

    /// A response arrived for a command this target issued: it clears the
    /// active chain's awaited slot when the method matches, and a frame
    /// tree response installs the snapshot.  The snapshot itself arrives
    /// already decoded, through the typed codec outside the crate.
    pub fn on_response(&mut self, resp: &Response, method: &str, frame_tree: &Option<
        crate::cdp::page::FrameTree,
    >)
        requires
            old(self).wf(),
        ensures
            final(self).wf(),
            init_rank(final(self).init_state) == init_rank(old(self).init_state),
            Self::on_response_rel(*old(self), *final(self), method@, *frame_tree),
    {
        match &mut self.init_state {
            TargetInit::InitializingFrame(c) => {
                c.received_response(method);
            },
            TargetInit::InitializingNetwork(c) => {
                c.received_response(method);
            },
            TargetInit::InitializingPage(c) => {
                c.received_response(method);
            },
            TargetInit::InitializingEmulation(c) => {
                c.received_response(method);
            },
            _ => {},
        }
        if str_eq(method, "Page.getFrameTree") {
            match frame_tree {
                Some(tree) => {
                    self.frame_manager.on_frame_tree(tree);
                },
                None => {},
            }
        }
    }

    /// What one routed event does to the target: every field outside the
    /// frame manager reads as before, and the frame manager changes exactly
    /// as the matching handler's relation says — an event no handler
    /// consumes leaves it untouched.  Initialization never gates this.
    pub open spec fn on_event_rel(pre: Target, post: Target, event: CdpEventMessage) -> bool {
        &&& post.session_id == pre.session_id
        &&& post.init_state == pre.init_state
        &&& post.queued_events == pre.queued_events
        &&& post.initiator == pre.initiator
        &&& post.initialize == pre.initialize
        &&& post.wait_until_frame_loaded == pre.wait_until_frame_loaded
        &&& post.info == pre.info
        &&& post.ttype == pre.ttype
        &&& post.config == pre.config
        &&& post.is_closed == pre.is_closed
        &&& post.network_manager == pre.network_manager
        &&& post.emulation_manager == pre.emulation_manager
        &&& (match event.params {
            CdpEvent::PageFrameAttached(ev) => FrameManager::attach_rel(
                pre.frame_manager,
                post.frame_manager,
                ev.frame_id,
                Some(ev.parent_frame_id),
            ),
            CdpEvent::PageFrameDetached(ev) => FrameManager::detach_rel(
                pre.frame_manager,
                post.frame_manager,
                ev.frame_id,
            ),
            CdpEvent::PageFrameNavigated(ev) => FrameManager::navigated_rel(
                pre.frame_manager,
                post.frame_manager,
                ev.frame,
            ),
            CdpEvent::PageNavigatedWithinDocument(ev) => FrameManager::within_doc_rel(
                pre.frame_manager,
                post.frame_manager,
                ev,
            ),
            CdpEvent::PageLifecycleEvent(ev) => FrameManager::lifecycle_rel(
                pre.frame_manager,
                post.frame_manager,
                ev,
            ),
            CdpEvent::PageFrameStoppedLoading(ev) => FrameManager::stopped_rel(
                pre.frame_manager,
                post.frame_manager,
                ev,
            ),
            _ => post.frame_manager == pre.frame_manager,
        })
    }

    /// Routes an inbound event to the frame or network manager; an event
    /// neither consumes is dropped here (the driver outside the crate hands
    /// events to subscribers independently).  Initialization does not gate
    /// this: events are forwarded in every phase.
    pub fn on_event(&mut self, event: &CdpEventMessage)
        requires
            old(self).wf(),
        ensures
            final(self).wf(),
            Self::on_event_rel(*old(self), *final(self), *event),
    {
        match &event.params {
            CdpEvent::PageFrameAttached(ev) => {
                let fid = ev.frame_id.clone();
                let pid = ev.parent_frame_id.clone();
                proof {
                    assert(fid == ev.frame_id);
                    assert(pid == ev.parent_frame_id);
                }
                self.frame_manager.on_frame_attached(fid, Some(pid));
            },
            CdpEvent::PageFrameDetached(ev) => {
                self.frame_manager.on_frame_detached(ev);
            },
            CdpEvent::PageFrameNavigated(ev) => {
                self.frame_manager.on_frame_navigated(&ev.frame);
            },
            CdpEvent::PageNavigatedWithinDocument(ev) => {
                self.frame_manager.on_frame_navigated_within_document(ev);
            },
            CdpEvent::PageLifecycleEvent(ev) => {
                self.frame_manager.on_page_lifecycle_event(ev);
            },
            CdpEvent::PageFrameStartedLoading(ev) => {
                self.frame_manager.on_frame_started_loading(ev);
            },
            CdpEvent::PageFrameStoppedLoading(ev) => {
                self.frame_manager.on_frame_stopped_loading(ev);
            },
            CdpEvent::FetchRequestPaused(ev) => {
                self.network_manager.on_fetch_request_paused(ev);
            },
            CdpEvent::FetchAuthRequired(ev) => {
                self.network_manager.on_fetch_auth_required(ev);
            },
            CdpEvent::NetworkRequestWillBeSent(ev) => {
                self.network_manager.on_request_will_be_sent(ev);
            },
            CdpEvent::NetworkRequestServedFromCache(ev) => {
                self.network_manager.on_request_served_from_cache(ev);
            },
            CdpEvent::NetworkResponseReceived(ev) => {
                self.network_manager.on_response_received(ev);
            },
            CdpEvent::NetworkLoadingFinished(ev) => {
                self.network_manager.on_network_loading_finished(ev);
            },
            CdpEvent::NetworkLoadingFailed(ev) => {
                self.network_manager.on_network_loading_failed(ev);
            },
            _ => {},
        }
    }

    /// Whether the target's main frame is tracked and has finished loading.
    pub open spec fn main_loaded(t: Target) -> bool {
        match t.frame_manager.main_frame {
            Some(m) => t.frame_manager.tracks(m.0@) && t.frame_manager.frame_of(
                m.0@,
            ).has_lifecycle(load_milestone()),
            None => false,
        }
    }

    /// Whether a request carries exactly the target's session tag.
    pub open spec fn tagged(q: Request, s: Option<SessionId>) -> bool {
        match (q.session_id, s) {
            (Some(a), Some(b)) => a@ == b.0@,
            (None, None) => true,
            _ => false,
        }
    }

    /// All fields except the initialization phase, the frame manager, the
    /// emulation manager and the initiator read as before.
    pub open spec fn same_core(pre: Target, post: Target) -> bool {
        &&& post.info == pre.info
        &&& post.ttype == pre.ttype
        &&& post.config == pre.config
        &&& post.is_closed == pre.is_closed
        &&& post.browser_context == pre.browser_context
        &&& post.session_id == pre.session_id
        &&& post.queued_events == pre.queued_events
        &&& post.wait_until_frame_loaded == pre.wait_until_frame_loaded
        &&& post.initialize == pre.initialize
        &&& post.network_manager == pre.network_manager
    }

    /// All fields except the initialization phase, the frame manager and
    /// the emulation manager read as before.
    pub open spec fn same_outside_init(pre: Target, post: Target) -> bool {
        &&& Self::same_core(pre, post)
        &&& post.initiator == pre.initiator
    }

    /// How one poll of an initialized target relates the state before to
    /// the state after and to what it reports: the parked initiator gets
    /// the page once the main frame has loaded (exactly once — the slot is
    /// cleared), then parked navigation waiters are answered newest first,
    /// then queued events drain oldest first, and finally the frame
    /// manager's navigation tracking runs.
    pub open spec fn ready_step(pre: Target, post: Target, r: Option<TargetEvent>, now: u64) -> bool {
        if Self::main_loaded(pre) && pre.initiator is Some && pre.session_id is Some {
            &&& r == Some(TargetEvent::PageReady(pre.initiator.unwrap()))
            &&& post == (Target { initiator: None, ..pre })
        } else if Self::main_loaded(pre) && pre.wait_until_frame_loaded@.len() > 0 {
            &&& (r matches Some(TargetEvent::FrameLoaded(c, u)) && c
                == pre.wait_until_frame_loaded@.last() && (match (
                u,
                pre.frame_manager.frame_of(pre.frame_manager.main_frame.unwrap().0@).url,
            ) {
                (Some(a), Some(b)) => a@ == b@,
                (None, None) => true,
                _ => false,
            }))
            &&& post.wait_until_frame_loaded@ == pre.wait_until_frame_loaded@.take(
                pre.wait_until_frame_loaded@.len() - 1,
            )
            &&& Self::same_outside_init(
                Target { wait_until_frame_loaded: post.wait_until_frame_loaded, ..pre },
                post,
            )
            &&& post.frame_manager == pre.frame_manager
            &&& post.init_state == pre.init_state
        } else if pre.queued_events@.len() > 0 {
            &&& r == Some(pre.queued_events@[0])
            &&& post.queued_events@ == pre.queued_events@.skip(1)
            &&& Self::same_outside_init(Target { queued_events: post.queued_events, ..pre }, post)
            &&& post.frame_manager == pre.frame_manager
            &&& post.init_state == pre.init_state
        } else {
            &&& FrameManager::poll_rel(
                pre.frame_manager,
                post.frame_manager,
                FrameManager::spec_poll_result(pre.frame_manager, now),
                now,
            )
            &&& (match FrameManager::spec_poll_result(pre.frame_manager, now) {
                None => r is None,
                Some(FrameEvent::NavigationResult(res)) => r == Some(
                    TargetEvent::NavigationResult(res),
                ),
                Some(FrameEvent::NavigationRequest(id, params)) => (r matches Some(
                    TargetEvent::NavigationRequest(rid, q),
                ) && rid == id && q.method@ == "Page.navigate"@ && q.params@
                    == crate::cdp::page::spec_navigate_params(
                    params.url@,
                    (match params.referrer {
                        Some(s) => Some(s@),
                        None => None,
                    }),
                    (match params.frame_id {
                        Some(f) => Some(f.0@),
                        None => None,
                    }),
                ) && Self::tagged(q, pre.session_id)),
            })
            &&& Self::same_outside_init(pre, post)
            &&& post.init_state == pre.init_state
            &&& post.emulation_manager == pre.emulation_manager
        }
    }

    /// The phase that owns the given chain, by rank.
    pub open spec fn phase_with(rank: int, c: CommandChain) -> TargetInit {
        if rank == 4 {
            TargetInit::InitializingFrame(c)
        } else if rank == 3 {
            TargetInit::InitializingNetwork(c)
        } else if rank == 2 {
            TargetInit::InitializingPage(c)
        } else {
            TargetInit::InitializingEmulation(c)
        }
    }

    /// How one poll of a chain-driven phase relates the state before to the
    /// state after and to what it reports: the frame phase waits for a
    /// session; a pending chain reports nothing; a timed-out chain reports
    /// the failure; the next command goes out tagged with the session; and
    /// an exhausted chain advances — to the isolated-world follow-up within
    /// the frame phase, to the next phase's first command, or through to
    /// the initialized behaviour ([`Self::ready_step`]).
    pub open spec fn chain_phase_step(
        pre: Target,
        post: Target,
        r: Option<TargetEvent>,
        now: u64,
        c0: CommandChain,
        rank: int,
    ) -> bool {
        if rank == 4 && pre.session_id is None {
            r is None && post == pre
        } else {
            match spec_poll(c0, now) {
                (ChainPoll::Pending, _) => r is None && post == pre,
                (ChainPoll::TimedOut(e), c2) => {
                    &&& post.init_state == Self::phase_with(rank, c2)
                    &&& (match pre.initiator {
                        Some(tx) => r == Some(TargetEvent::InitFailed(tx, e)),
                        None => r == Some(TargetEvent::RequestTimeout(e)),
                    })
                    &&& post.initiator is None
                    &&& Self::same_core(pre, post)
                    &&& post.frame_manager == pre.frame_manager
                    &&& post.emulation_manager == pre.emulation_manager
                },
                (ChainPoll::Next(m, p), c2) => {
                    &&& (r matches Some(TargetEvent::Request(q)) && q.method == m && q.params == p
                        && Self::tagged(q, pre.session_id))
                    &&& post.init_state == Self::phase_with(rank, c2)
                    &&& Self::same_outside_init(pre, post)
                    &&& post.frame_manager == pre.frame_manager
                    &&& post.emulation_manager == pre.emulation_manager
                },
                (ChainPoll::Done, _) => {
                    if rank == 4 {
                        if !pre.frame_manager.isolated_world_sent
                            && pre.frame_manager.frames@.len() > 0 {
                            &&& (r matches Some(TargetEvent::Request(q)) && q.method@
                                == "Page.createIsolatedWorld"@ && q.params@
                                == crate::cdp::page::spec_isolated_world_params(
                                pre.frame_manager.frames@[0].id.0@,
                                UTILITY_WORLD_NAME@,
                            ) && Self::tagged(q, pre.session_id))
                            &&& (post.init_state matches TargetInit::InitializingFrame(c2)
                                && c2.pending().len() == pre.frame_manager.frames@.len() - 1 && (
                            c2.waiting matches Some(w) && w.0@ == "Page.createIsolatedWorld"@ && w.1
                                == deadline_after(now, REQUEST_TIMEOUT)))
                            &&& post.frame_manager == (FrameManager {
                                isolated_world_sent: true,
                                ..pre.frame_manager
                            })
                            &&& Self::same_outside_init(pre, post)
                            &&& post.emulation_manager == pre.emulation_manager
                        } else {
                            &&& Self::network_started(pre, post, r, now)
                            &&& post.frame_manager == (FrameManager {
                                isolated_world_sent: true,
                                ..pre.frame_manager
                            })
                        }
                    } else if rank == 3 {
                        &&& (r matches Some(TargetEvent::Request(q)) && q.method@
                            == "Target.setAutoAttach"@ && q.params@
                            == "{\"autoAttach\":true,\"waitForDebuggerOnStart\":true,\"flatten\":true}"@
                            && Self::tagged(q, pre.session_id))
                        &&& (post.init_state matches TargetInit::InitializingPage(c2)
                            && c2.pending().len() == 2 && c2.pending()[0].0@
                            == "Performance.enable"@ && c2.pending()[0].1@ == "{}"@
                            && c2.pending()[1].0@ == "Log.enable"@ && c2.pending()[1].1@ == "{}"@
                            && (c2.waiting matches Some(w) && w.0@ == "Target.setAutoAttach"@
                            && w.1 == deadline_after(now, REQUEST_TIMEOUT)))
                        &&& Self::same_outside_init(pre, post)
                        &&& post.frame_manager == pre.frame_manager
                        &&& post.emulation_manager == pre.emulation_manager
                    } else if rank == 2 {
                        match pre.config.viewport {
                            Some(v) => {
                                &&& (r matches Some(TargetEvent::Request(q)) && q.method@
                                    == "Emulation.setDeviceMetricsOverride"@ && q.params@
                                    == crate::cdp::emulation::spec_device_metrics_params(
                                    crate::emulation::spec_metrics_of(v),
                                ) && Self::tagged(q, pre.session_id))
                                &&& (post.init_state matches TargetInit::InitializingEmulation(c2)
                                    && c2.pending().len() == 1 && c2.pending()[0].0@
                                    == "Emulation.setTouchEmulationEnabled"@
                                    && c2.pending()[0].1@ == "{\"enabled\":true}"@ && (
                                c2.waiting matches Some(w) && w.0@
                                    == "Emulation.setDeviceMetricsOverride"@ && w.1
                                    == deadline_after(now, REQUEST_TIMEOUT)))
                                &&& Self::same_outside_init(pre, post)
                                &&& post.frame_manager == pre.frame_manager
                                &&& post.emulation_manager == (EmulationManager {
                                    needs_reload: pre.emulation_manager.emulating_mobile
                                        != v.emulating_mobile || pre.emulation_manager.has_touch
                                        != v.has_touch,
                                    ..pre.emulation_manager
                                })
                            },
                            None => post.init_state is Initialized && Self::ready_step(
                                (Target { init_state: TargetInit::Initialized, ..pre }),
                                post,
                                r,
                                now,
                            ),
                        }
                    } else {
                        post.init_state is Initialized && Self::ready_step(
                            (Target { init_state: TargetInit::Initialized, ..pre }),
                            post,
                            r,
                            now,
                        )
                    }
                },
            }
        }
    }

    /// The network phase just started: its enable command went out tagged
    /// with the session, and the rest of the network chain is armed.
    pub open spec fn network_started(
        pre: Target,
        post: Target,
        r: Option<TargetEvent>,
        now: u64,
    ) -> bool {
        &&& (r matches Some(TargetEvent::Request(q)) && q.method@ == "Network.enable"@ && q.params@
            == "{}"@ && Self::tagged(q, pre.session_id))
        &&& (post.init_state matches TargetInit::InitializingNetwork(c2) && (
        if pre.network_manager.ignore_httpserrors {
            c2.pending().len() == 1 && c2.pending()[0].0@ == "Security.setIgnoreCertificateErrors"@
                && c2.pending()[0].1@ == "{\"ignore\":true}"@
        } else {
            c2.pending().len() == 0
        }) && (c2.waiting matches Some(w) && w.0@ == "Network.enable"@ && w.1 == deadline_after(
            now,
            REQUEST_TIMEOUT,
        )))
        &&& Self::same_outside_init(pre, post)
        &&& post.emulation_manager == pre.emulation_manager
    }

    /// Builds a request tagged with this target's session.
    fn make_request(&self, method: String, params: String) -> (q: Request)
        ensures
            q.method == method,
            q.params == params,
            Self::tagged(q, self.session_id),
    {
        let session = match &self.session_id {
            Some(s) => Some(s.0.clone()),
            None => None,
        };
        Request { method, session_id: session, params }
    }

    /// The behaviour of an initialized target: the parked initiator gets
    /// the page once the main frame has loaded, navigation waiters are
    /// answered, queued events drain, and the frame manager's navigation
    /// tracking runs; see [`Self::ready_step`] for the exact relation.
    fn poll_ready(&mut self, now: u64) -> (r: Option<TargetEvent>)
        requires
            old(self).wf(),
        ensures
            final(self).wf(),
            final(self).init_state == old(self).init_state,
            Self::ready_step(*old(self), *final(self), r, now),
    {
        let loaded = match self.frame_manager.main_frame() {
            Some(f) => f.is_loaded(),
            None => false,
        };
        if loaded && self.initiator.is_some() && self.session_id.is_some() {
            let tx = match self.initiator.take() {
                Some(t) => t,
                None => {
                    proof {
                        assert(false);
                    }
                    CallerId(0)
                },
            };
            return Some(TargetEvent::PageReady(tx));
        }
        if loaded && self.wait_until_frame_loaded.len() > 0 {
            let tx = match self.wait_until_frame_loaded.pop() {
                Some(t) => t,
                None => {
                    proof {
                        assert(false);
                    }
                    CallerId(0)
                },
            };
            let url = match self.frame_manager.main_frame() {
                Some(f) => match &f.url {
                    Some(u) => Some(u.clone()),
                    None => None,
                },
                None => None,
            };
            return Some(TargetEvent::FrameLoaded(tx, url));
        }
        if self.queued_events.len() > 0 {
            let ev = self.queued_events.remove(0);
            proof {
                assert(self.queued_events@ =~= old(self).queued_events@.skip(1));
            }
            return Some(ev);
        }
        match self.frame_manager.poll(now) {
            None => None,
            Some(FrameEvent::NavigationResult(res)) => Some(TargetEvent::NavigationResult(res)),
            Some(FrameEvent::NavigationRequest(id, params)) => {
                let json = params.to_json();
                let q = self.make_request("Page.navigate".to_owned(), json);
                Some(TargetEvent::NavigationRequest(id, q))
            },
        }
    }

    /// Advances the target at time `now`: does nothing until initialization
    /// is requested; issues the attach request; drives the phase chains in
    /// their strict order, tagging commands with the session once attached
    /// and weaving in the isolated-world setup after the frame phase; and,
    /// once initialized, behaves as [`Self::ready_step`] describes.
    pub fn poll(&mut self, now: u64) -> (r: Option<TargetEvent>)
        requires
            old(self).wf(),
        ensures
            final(self).wf(),
            !old(self).initialize ==> r is None && *final(self) == *old(self),
            old(self).initialize ==> (match old(self).init_state {
                TargetInit::AttachToTarget => {
                    &&& (r matches Some(TargetEvent::Request(q)) && q.method@
                        == "Target.attachToTarget"@ && q.session_id is None && q.params@ == (
                    "{\"targetId\":"@ + crate::json::json_string(old(self).info.target_id.0@)
                        + ",\"flatten\":true}"@))
                    &&& (final(self).init_state matches TargetInit::InitializingFrame(c)
                        && c.waiting is None && c.pending().len() == 4 && c.pending()[0].0@
                        == "Page.enable"@ && c.pending()[0].1@ == "{}"@ && c.pending()[1].0@
                        == "Page.getFrameTree"@ && c.pending()[1].1@ == "{}"@ && c.pending()[2].0@
                        == "Page.setLifecycleEventsEnabled"@ && c.pending()[2].1@
                        == "{\"enabled\":true}"@ && c.pending()[3].0@ == "Runtime.enable"@
                        && c.pending()[3].1@ == "{}"@)
                    &&& Self::same_outside_init(*old(self), *final(self))
                    &&& final(self).frame_manager == old(self).frame_manager
                    &&& final(self).emulation_manager == old(self).emulation_manager
                },
                TargetInit::InitializingFrame(c0) => Self::chain_phase_step(
                    *old(self),
                    *final(self),
                    r,
                    now,
                    c0,
                    4,
                ),
                TargetInit::InitializingNetwork(c0) => Self::chain_phase_step(
                    *old(self),
                    *final(self),
                    r,
                    now,
                    c0,
                    3,
                ),
                TargetInit::InitializingPage(c0) => Self::chain_phase_step(
                    *old(self),
                    *final(self),
                    r,
                    now,
                    c0,
                    2,
                ),
                TargetInit::InitializingEmulation(c0) => Self::chain_phase_step(
                    *old(self),
                    *final(self),
                    r,
                    now,
                    c0,
                    1,
                ),
                TargetInit::Initialized => final(self).init_state is Initialized
                    && Self::ready_step(*old(self), *final(self), r, now),
            }),
    {
        if !self.initialize {
            return None;
        }
        if matches!(self.init_state, TargetInit::Initialized) {
            return self.poll_ready(now);
        }
        let mut st = TargetInit::Initialized;
        core::mem::swap(&mut st, &mut self.init_state);
        match st {
            TargetInit::AttachToTarget => {
                self.init_state = TargetInit::InitializingFrame(FrameManager::init_commands());
                let params = crate::cdp::target::AttachToTargetParams {
                    target_id: self.info.target_id.clone(),
                    flatten: Some(true),
                };
                let json = params.to_json();
                Some(
                    TargetEvent::Request(
                        Request {
                            method: crate::cdp::target::AttachToTargetParams::identifier(),
                            session_id: None,
                            params: json,
                        },
                    ),
                )
            },
            TargetInit::InitializingFrame(mut cmds) => {
                if self.session_id.is_none() {
                    self.init_state = TargetInit::InitializingFrame(cmds);
                    return None;
                }
                match cmds.poll(now) {
                    ChainPoll::Pending => {
                        self.init_state = TargetInit::InitializingFrame(cmds);
                        None
                    },
                    ChainPoll::TimedOut(e) => {
                        self.init_state = TargetInit::InitializingFrame(cmds);
                        match self.initiator.take() {
                            Some(tx) => Some(TargetEvent::InitFailed(tx, e)),
                            None => Some(TargetEvent::RequestTimeout(e)),
                        }
                    },
                    ChainPoll::Next(m, p) => {
                        self.init_state = TargetInit::InitializingFrame(cmds);
                        let q = self.make_request(m, p);
                        Some(TargetEvent::Request(q))
                    },
                    ChainPoll::Done => {
                        let iso_opt = self.frame_manager.ensure_isolated_world(UTILITY_WORLD_NAME);
                        proof {
                            assert(self.frame_manager =~= (FrameManager {
                                isolated_world_sent: true,
                                ..old(self).frame_manager
                            }));
                        }
                        match iso_opt {
                            Some(mut iso) => {
                                if iso.next < iso.cmds.len() {
                                    match iso.poll(now) {
                                        ChainPoll::Next(m, p) => {
                                            self.init_state = TargetInit::InitializingFrame(iso);
                                            let q = self.make_request(m, p);
                                            Some(TargetEvent::Request(q))
                                        },
                                        _ => {
                                            proof {
                                                assert(false);
                                            }
                                            self.init_state = TargetInit::InitializingFrame(iso);
                                            None
                                        },
                                    }
                                } else {
                                    self.advance_to_network(now)
                                }
                            },
                            None => self.advance_to_network(now),
                        }
                    },
                }
            },
            TargetInit::InitializingNetwork(mut cmds) => {
                match cmds.poll(now) {
                    ChainPoll::Pending => {
                        self.init_state = TargetInit::InitializingNetwork(cmds);
                        None
                    },
                    ChainPoll::TimedOut(e) => {
                        self.init_state = TargetInit::InitializingNetwork(cmds);
                        match self.initiator.take() {
                            Some(tx) => Some(TargetEvent::InitFailed(tx, e)),
                            None => Some(TargetEvent::RequestTimeout(e)),
                        }
                    },
                    ChainPoll::Next(m, p) => {
                        self.init_state = TargetInit::InitializingNetwork(cmds);
                        let q = self.make_request(m, p);
                        Some(TargetEvent::Request(q))
                    },
                    ChainPoll::Done => {
                        let mut page = Self::page_init_commands();
                        match page.poll(now) {
                            ChainPoll::Next(m, p) => {
                                self.init_state = TargetInit::InitializingPage(page);
                                let q = self.make_request(m, p);
                                Some(TargetEvent::Request(q))
                            },
                            _ => {
                                proof {
                                    assert(false);
                                }
                                self.init_state = TargetInit::InitializingPage(page);
                                None
                            },
                        }
                    },
                }
            },
            TargetInit::InitializingPage(mut cmds) => {
                match cmds.poll(now) {
                    ChainPoll::Pending => {
                        self.init_state = TargetInit::InitializingPage(cmds);
                        None
                    },
                    ChainPoll::TimedOut(e) => {
                        self.init_state = TargetInit::InitializingPage(cmds);
                        match self.initiator.take() {
                            Some(tx) => Some(TargetEvent::InitFailed(tx, e)),
                            None => Some(TargetEvent::RequestTimeout(e)),
                        }
                    },
                    ChainPoll::Next(m, p) => {
                        self.init_state = TargetInit::InitializingPage(cmds);
                        let q = self.make_request(m, p);
                        Some(TargetEvent::Request(q))
                    },
                    ChainPoll::Done => {
                        let vp = self.config.viewport;
                        match self.emulation_manager.init_commands(&vp) {
                            Some(mut em) => {
                                match em.poll(now) {
                                    ChainPoll::Next(m, p) => {
                                        self.init_state = TargetInit::InitializingEmulation(em);
                                        let q = self.make_request(m, p);
                                        Some(TargetEvent::Request(q))
                                    },
                                    _ => {
                                        proof {
                                            assert(false);
                                        }
                                        self.init_state = TargetInit::InitializingEmulation(em);
                                        None
                                    },
                                }
                            },
                            None => {
                                self.init_state = TargetInit::Initialized;
                                proof {
                                    assert(*self =~= (Target {
                                        init_state: TargetInit::Initialized,
                                        ..*old(self)
                                    }));
                                }
                                self.poll_ready(now)
                            },
                        }
                    },
                }
            },
            TargetInit::InitializingEmulation(mut cmds) => {
                match cmds.poll(now) {
                    ChainPoll::Pending => {
                        self.init_state = TargetInit::InitializingEmulation(cmds);
                        None
                    },
                    ChainPoll::TimedOut(e) => {
                        self.init_state = TargetInit::InitializingEmulation(cmds);
                        match self.initiator.take() {
                            Some(tx) => Some(TargetEvent::InitFailed(tx, e)),
                            None => Some(TargetEvent::RequestTimeout(e)),
                        }
                    },
                    ChainPoll::Next(m, p) => {
                        self.init_state = TargetInit::InitializingEmulation(cmds);
                        let q = self.make_request(m, p);
                        Some(TargetEvent::Request(q))
                    },
                    ChainPoll::Done => {
                        self.init_state = TargetInit::Initialized;
                        proof {
                            assert(*self =~= (Target {
                                init_state: TargetInit::Initialized,
                                ..*old(self)
                            }));
                        }
                        self.poll_ready(now)
                    },
                }
            },
            TargetInit::Initialized => {
                self.poll_ready(now)
            },
        }
    }

    /// Starts the network phase with its first command.
    fn advance_to_network(&mut self, now: u64) -> (r: Option<TargetEvent>)
        requires
            old(self).wf(),
        ensures
            final(self).wf(),
            (r matches Some(TargetEvent::Request(q)) && q.method@ == "Network.enable"@ && q.params@
                == "{}"@ && Self::tagged(q, old(self).session_id)),
            (final(self).init_state matches TargetInit::InitializingNetwork(c2) && (
            if old(self).network_manager.ignore_httpserrors {
                c2.pending().len() == 1 && c2.pending()[0].0@
                    == "Security.setIgnoreCertificateErrors"@ && c2.pending()[0].1@
                    == "{\"ignore\":true}"@
            } else {
                c2.pending().len() == 0
            }) && (c2.waiting matches Some(w) && w.0@ == "Network.enable"@ && w.1 == deadline_after(
                now,
                REQUEST_TIMEOUT,
            ))),
            Self::same_outside_init(*old(self), *final(self)),
            final(self).frame_manager == old(self).frame_manager,
            final(self).emulation_manager == old(self).emulation_manager,
    {
        let mut net = self.network_manager.init_commands();
        match net.poll(now) {
            ChainPoll::Next(m, p) => {
                self.init_state = TargetInit::InitializingNetwork(net);
                let q = self.make_request(m, p);
                Some(TargetEvent::Request(q))
            },
            _ => {
                proof {
                    assert(false);
                }
                self.init_state = TargetInit::InitializingNetwork(net);
                None
            },
        }
    }

    /// Answers a query message directly, or queues a command for the
    /// handler.  A caller waiting for navigation is parked until the main
    /// frame reports itself loaded.
    pub fn on_message(&mut self, msg: TargetMessage) -> (r: Option<TargetReply>)
        requires
            old(self).wf(),
        ensures
            final(self).wf(),
            final(self).frame_manager == old(self).frame_manager,
            final(self).init_state == old(self).init_state,
            final(self).session_id == old(self).session_id,
            final(self).initiator == old(self).initiator,
            (match msg {
                TargetMessage::Command(cmd) => (r is None) && final(self).queued_events@
                    == old(self).queued_events@.push(TargetEvent::Command(cmd))
                    && final(self).wait_until_frame_loaded == old(self).wait_until_frame_loaded,
                TargetMessage::MainFrame(tx) => (r matches Some(TargetReply::MainFrame(t, f)) && t
                    == tx && (match old(self).frame_manager.main_frame {
                    Some(m) => if old(self).frame_manager.tracks(m.0@) {
                        f matches Some(g) && g.0@ == m.0@
                    } else {
                        f is None
                    },
                    None => f is None,
                })) && *final(self) == *old(self),
                TargetMessage::AllFrames(tx) => (r matches Some(TargetReply::AllFrames(t, ids))
                    && t == tx && ids@.len() == old(self).frame_manager.frames@.len())
                    && *final(self) == *old(self),
                TargetMessage::Url(tx) => (r matches Some(TargetReply::Url(t, _)) && t == tx)
                    && *final(self) == *old(self),
                TargetMessage::WaitForNavigation(tx) => (r is None) && final(self).queued_events
                    == old(self).queued_events
                    && final(self).wait_until_frame_loaded@ == old(self).wait_until_frame_loaded@.push(tx),
                TargetMessage::GetExecutionContext(req) => (r matches
                    Some(TargetReply::ExecutionContext(t, _)) && t == req.tx) && *final(self)
                    == *old(self),
            }),
    {
        match msg {
            TargetMessage::Command(cmd) => {
                self.queued_events.push(TargetEvent::Command(cmd));
                None
            },
            TargetMessage::MainFrame(tx) => {
                let f = match self.frame_manager.main_frame() {
                    Some(f) => Some(f.id.clone()),
                    None => None,
                };
                Some(TargetReply::MainFrame(tx, f))
            },
            TargetMessage::AllFrames(tx) => {
                let ids = self.frame_manager.all_frame_ids();
                Some(TargetReply::AllFrames(tx, ids))
            },
            TargetMessage::Url(tx) => {
                let url = match self.frame_manager.main_frame() {
                    Some(f) => match &f.url {
                        Some(u) => Some(u.clone()),
                        None => None,
                    },
                    None => None,
                };
                Some(TargetReply::Url(tx, url))
            },
            TargetMessage::WaitForNavigation(tx) => {
                self.wait_until_frame_loaded.push(tx);
                None
            },
            TargetMessage::GetExecutionContext(req) => {
                let frame = match &req.frame_id {
                    Some(fid) => self.frame_manager.frame(fid),
                    None => self.frame_manager.main_frame(),
                };
                let ctx = match frame {
                    Some(f) => match req.dom_world {
                        DOMWorldKind::Main => f.main_world.execution_context(),
                        DOMWorldKind::Secondary => f.secondary_world.execution_context(),
                    },
                    None => None,
                };
                Some(TargetReply::ExecutionContext(req.tx, ctx))
            },
        }
    }
}

} // verus!
