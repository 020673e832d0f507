//! The frame lifecycle tracker: the tree of frames of one target, the
//! per-frame lifecycle milestones, and the watchers that decide when a
//! requested navigation has completed.
//!
//! Frames are stored in a flat table keyed by frame id; parent and child
//! relationships are id references, never owning pointers, which rules out
//! reference cycles by construction.

use vstd::prelude::*;
use vstd::string::StringExecFns;

use crate::cmd::{deadline_after, CommandChain};
use crate::cdp::page;
use crate::cdp::page::NavigateParams;
use crate::domworld::DOMWorld;
use crate::strutil::str_eq;
use crate::types::{FrameId, LoaderId};

verus! {

/// The lifecycle milestone that every watched navigation expects at least.
pub open spec fn load_milestone() -> Seq<char> {
    "load"@
}

/// One tracked frame: its place in the tree, its document state, and the
/// lifecycle milestones observed for its current document.
#[derive(Debug)]
pub struct Frame {
    /// The parent frame, absent for the main frame.
    pub parent_frame: Option<FrameId>,
    /// This frame's identifier.
    pub id: FrameId,
    /// The loader of the frame's current document: the per-document
    /// generation marker.
    pub loader_id: Option<LoaderId>,
    /// The frame's current URL, once navigated.
    pub url: Option<String>,
    /// The set of child frame identifiers.
    pub child_frames: Vec<FrameId>,
    /// The frame's name as specified in the tag.
    pub name: Option<String>,
    /// The set of lifecycle milestone names observed for the current
    /// document.
    pub lifecycle_events: Vec<String>,
    /// The frame's default JavaScript world.
    pub main_world: DOMWorld,
    /// The frame's isolated JavaScript world.
    pub secondary_world: DOMWorld,
}

impl Frame {
    /// Whether the milestone `name` was observed for the current document.
    pub open spec fn has_lifecycle(&self, name: Seq<char>) -> bool {
        exists|i: int|
            0 <= i < self.lifecycle_events@.len() && #[trigger] self.lifecycle_events@[i]@ == name
    }

    /// Whether `child` is in the frame's child set.
    pub open spec fn has_child(&self, child: Seq<char>) -> bool {
        exists|i: int|
            0 <= i < self.child_frames@.len() && #[trigger] self.child_frames@[i].0@ == child
    }

    /// A fresh frame without a parent, no children, and nothing observed.
    pub fn new(id: FrameId) -> (r: Frame)
        ensures
            r.id == id,
            r.parent_frame is None,
            r.loader_id is None,
            r.url is None,
            r.child_frames@.len() == 0,
            r.name is None,
            r.lifecycle_events@.len() == 0,
    {
        Frame {
            parent_frame: None,
            id,
            loader_id: None,
            url: None,
            child_frames: Vec::new(),
            name: None,
            lifecycle_events: Vec::new(),
            main_world: DOMWorld::main_world(),
            secondary_world: DOMWorld::secondary_world(),
        }
    }

    /// Whether the milestone `name` was observed (executable form).
    pub fn contains_lifecycle(&self, name: &str) -> (r: bool)
        ensures
            r == self.has_lifecycle(name@),
    {
        let n = self.lifecycle_events.len();
        let mut i: usize = 0;
        while i < n
            invariant
                n == self.lifecycle_events@.len(),
                i <= n,
                forall|j: int| 0 <= j < i ==> #[trigger] self.lifecycle_events@[j]@ != name@,
            decreases n - i,
        {
            if str_eq(self.lifecycle_events[i].as_str(), name) {
                return true;
            }
            i = i + 1;
        }
        false
    }

    /// Whether `child` is in the frame's child set (executable form).
    pub fn contains_child(&self, child: &FrameId) -> (r: bool)
        ensures
            r == self.has_child(child.0@),
    {
        let n = self.child_frames.len();
        let mut i: usize = 0;
        while i < n
            invariant
                n == self.child_frames@.len(),
                i <= n,
                forall|j: int| 0 <= j < i ==> #[trigger] self.child_frames@[j].0@ != child.0@,
            decreases n - i,
        {
            if self.child_frames[i].same(child) {
                return true;
            }
            i = i + 1;
        }
        false
    }

    /// Records the milestone `name`, once: the set is unchanged when it was
    /// already there.
    pub fn insert_lifecycle(&mut self, name: String)
        ensures
            final(self).lifecycle_events@ == if old(self).has_lifecycle(name@) {
                old(self).lifecycle_events@
            } else {
                old(self).lifecycle_events@.push(name)
            },
            final(self).parent_frame == old(self).parent_frame,
            final(self).id == old(self).id,
            final(self).loader_id == old(self).loader_id,
            final(self).url == old(self).url,
            final(self).child_frames == old(self).child_frames,
            final(self).name == old(self).name,
            final(self).main_world == old(self).main_world,
            final(self).secondary_world == old(self).secondary_world,
    {
        if !self.contains_lifecycle(name.as_str()) {
            self.lifecycle_events.push(name);
        }
    }

    /// Whether the frame's current document has finished loading.
    pub fn is_loaded(&self) -> (r: bool)
        ensures
            r == self.has_lifecycle(load_milestone()),
    {
        self.contains_lifecycle("load")
    }

    /// The frame navigated to a new document: takes the name and URL (with
    /// its fragment, if any) from the reported payload.
    pub fn navigated(&mut self, payload: &page::Frame)
        ensures
            final(self).name == payload.name,
            match final(self).url {
                Some(u) => u@ == payload.url@ + (match payload.url_fragment {
                    Some(f) => f@,
                    None => Seq::<char>::empty(),
                }),
                None => false,
            },
            final(self).parent_frame == old(self).parent_frame,
            final(self).id == old(self).id,
            final(self).loader_id == old(self).loader_id,
            final(self).child_frames == old(self).child_frames,
            final(self).lifecycle_events == old(self).lifecycle_events,
            final(self).main_world == old(self).main_world,
            final(self).secondary_world == old(self).secondary_world,
    {
        self.name = match &payload.name {
            Some(n) => Some(n.clone()),
            None => None,
        };
        let mut url = payload.url.clone();
        match &payload.url_fragment {
            Some(f) => {
                url.append(f.as_str());
            },
            None => {
                proof {
                    assert(url@ =~= payload.url@ + Seq::<char>::empty());
                }
            },
        }
        self.url = Some(url);
    }

    /// The frame navigated within the same document: only the URL changes.
    pub fn navigated_within_url(&mut self, url: String)
        ensures
            final(self).url == Some(url),
            final(self).parent_frame == old(self).parent_frame,
            final(self).id == old(self).id,
            final(self).loader_id == old(self).loader_id,
            final(self).child_frames == old(self).child_frames,
            final(self).name == old(self).name,
            final(self).lifecycle_events == old(self).lifecycle_events,
            final(self).main_world == old(self).main_world,
            final(self).secondary_world == old(self).secondary_world,
    {
        self.url = Some(url);
    }

    /// The frame stopped loading: both remaining milestones are recorded.
    pub fn on_loading_stopped(&mut self)
        ensures
            final(self).has_lifecycle("DOMContentLoaded"@),
            final(self).has_lifecycle(load_milestone()),
            forall|m: Seq<char>|
                #[trigger] final(self).has_lifecycle(m) <==> (old(self).has_lifecycle(m) || m
                    == "DOMContentLoaded"@ || m == load_milestone()),
            final(self).parent_frame == old(self).parent_frame,
            final(self).id == old(self).id,
            final(self).loader_id == old(self).loader_id,
            final(self).url == old(self).url,
            final(self).child_frames == old(self).child_frames,
            final(self).name == old(self).name,
    {
        let dcl = "DOMContentLoaded".to_owned();
        let ld = "load".to_owned();
        let ghost l0 = self.lifecycle_events@;
        self.insert_lifecycle(dcl);
        let ghost l1 = self.lifecycle_events@;
        self.insert_lifecycle(ld);
        proof {
            let l2 = self.lifecycle_events@;
            if old(self).has_lifecycle("DOMContentLoaded"@) {
                let i = choose|i: int| 0 <= i < l0.len() && l0[i]@ == "DOMContentLoaded"@;
                assert(l2[i]@ == "DOMContentLoaded"@);
                assert(self.has_lifecycle("DOMContentLoaded"@));
            } else {
                assert(l1[l0.len() as int]@ == "DOMContentLoaded"@);
                assert(l2[l0.len() as int]@ == "DOMContentLoaded"@);
                assert(self.has_lifecycle("DOMContentLoaded"@));
            }
            let s1_has_load = exists|i: int| 0 <= i < l1.len() && #[trigger] l1[i]@ == "load"@;
            if s1_has_load {
                let i = choose|i: int| 0 <= i < l1.len() && l1[i]@ == "load"@;
                assert(l2[i]@ == "load"@);
                assert(self.has_lifecycle("load"@));
            } else {
                assert(l2[l1.len() as int]@ == "load"@);
                assert(self.has_lifecycle("load"@));
            }
            assert forall|m: Seq<char>| #[trigger]
                self.has_lifecycle(m) implies (old(self).has_lifecycle(m) || m
                == "DOMContentLoaded"@ || m == load_milestone()) by {
                let i = choose|i: int| 0 <= i < l2.len() && l2[i]@ == m;
                if i < l0.len() {
                    assert(l0[i]@ == m);
                    assert(old(self).has_lifecycle(m));
                }
            }
            assert forall|m: Seq<char>|
                old(self).has_lifecycle(m) implies #[trigger] self.has_lifecycle(m) by {
                let i = choose|i: int| 0 <= i < l0.len() && l0[i]@ == m;
                assert(l2[i]@ == m);
            }
        }
    }
}

/// An identifier the handler assigns to one queued navigation.
#[derive(Debug, Clone, Copy, PartialEq, Eq, Structural, Hash)]
pub struct NavigationId(pub usize);

/// A requested navigation, as the frame manager queues it.
#[derive(Debug)]
pub struct NavigationRequest {
    /// The navigation's identifier.
    pub id: NavigationId,
    /// The referrer URL to navigate with.
    pub referer: Option<String>,
    /// The URL to navigate to.
    pub url: String,
}

/// How a completed navigation resolved.
#[derive(Debug, Clone)]
pub enum NavigationOk {
    /// The frame navigated within its current document.
    SameDocumentNavigation(NavigationId),
    /// The frame loaded a new document.
    NewDocumentNavigation(NavigationId),
}

impl NavigationOk {
    /// The identifier of the navigation this resolves.
    pub fn navigation_id(&self) -> (r: NavigationId)
        ensures
            match *self {
                NavigationOk::SameDocumentNavigation(id) => r == id,
                NavigationOk::NewDocumentNavigation(id) => r == id,
            },
    {
        match self {
            NavigationOk::SameDocumentNavigation(id) => *id,
            NavigationOk::NewDocumentNavigation(id) => *id,
        }
    }
}

/// Why a watched navigation failed.
#[derive(Debug)]
pub enum NavigationError {
    /// No completion was observed within the navigation window.
    Timeout {
        /// The failed navigation.
        id: NavigationId,
        /// The time of the sweep that found the deadline passed.
        now: u64,
        /// The deadline that passed.
        deadline: u64,
    },
    /// The navigated frame is not tracked.
    FrameNotFound {
        /// The failed navigation.
        id: NavigationId,
        /// The frame that was not found.
        frame: FrameId,
    },
}

impl NavigationError {
    /// The identifier of the navigation this fails.
    pub fn navigation_id(&self) -> (r: NavigationId)
        ensures
            match *self {
                NavigationError::Timeout { id, .. } => r == id,
                NavigationError::FrameNotFound { id, .. } => r == id,
            },
    {
        match self {
            NavigationError::Timeout { id, .. } => *id,
            NavigationError::FrameNotFound { id, .. } => *id,
        }
    }
}

/// What the frame manager reports from one poll.
#[derive(Debug)]
pub enum FrameEvent {
    /// A watched navigation resolved or failed.
    NavigationResult(Result<NavigationOk, NavigationError>),
    /// A queued navigation is ready to be sent to the browser.
    NavigationRequest(NavigationId, NavigateParams),
}

/// Tracks the progress of one issued navigation until completion.
#[derive(Debug)]
pub struct NavigationWatcher {
    /// The watched navigation.
    pub id: NavigationId,
    /// The lifecycle milestones the navigated frame and its descendants
    /// must all reach.
    pub expected_lifecycle: Vec<String>,
    /// The navigated frame.
    pub frame_id: FrameId,
    /// The frame's loader at request time; a different loader later means a
    /// new document was loaded.
    pub loader_id: Option<LoaderId>,
    /// Whether a same-document navigation event was observed for the frame.
    pub same_document_navigation: bool,
}

impl NavigationWatcher {
    /// A watcher that waits for the `load` milestone of the given frame.
    pub fn until_page_load(id: NavigationId, frame: FrameId, loader_id: Option<LoaderId>) -> (r:
        NavigationWatcher)
        ensures
            r.id == id,
            r.frame_id == frame,
            r.loader_id == loader_id,
            !r.same_document_navigation,
            r.expected_lifecycle@.len() == 1,
            r.expected_lifecycle@[0]@ == load_milestone(),
    {
        let mut expected: Vec<String> = Vec::new();
        expected.push("load".to_owned());
        NavigationWatcher {
            id,
            expected_lifecycle: expected,
            frame_id: frame,
            loader_id,
            same_document_navigation: false,
        }
    }

    /// Whether nothing more is expected of the lifecycle.
    pub fn is_lifecycle_complete(&self) -> (r: bool)
        ensures
            r == (self.expected_lifecycle@.len() == 0),
    {
        self.expected_lifecycle.len() == 0
    }

    /// A same-document navigation event arrived: it marks this navigation
    /// only if it names the watched frame.
    pub fn on_frame_navigated_within_document(&mut self, ev: &page::EventNavigatedWithinDocument)
        ensures
            final(self).same_document_navigation == (old(self).same_document_navigation || old(
                self,
            ).frame_id.0@ == ev.frame_id.0@),
            final(self).id == old(self).id,
            final(self).expected_lifecycle == old(self).expected_lifecycle,
            final(self).frame_id == old(self).frame_id,
            final(self).loader_id == old(self).loader_id,
    {
        if self.frame_id.same(&ev.frame_id) {
            self.same_document_navigation = true;
        }
    }

    /// A network request was observed for the navigation; nothing is
    /// tracked for it here.
    pub fn on_network_request(&mut self)
        ensures
            *final(self) == *old(self),
    {
    }
}

/// Navigation timeout in milliseconds.
pub const NAVIGATION_TIMEOUT: u64 = 30_000;

/// The name of the isolated world the runtime creates in each frame.
pub const UTILITY_WORLD_NAME: &'static str = "__cdp_utility_world__";

/// A surviving frame after a removal: every field unchanged, except that
/// its child set may have lost members.
pub open spec fn frame_shrunk(f_new: Frame, f_old: Frame) -> bool {
    &&& f_new.id == f_old.id
    &&& f_new.parent_frame == f_old.parent_frame
    &&& f_new.loader_id == f_old.loader_id
    &&& f_new.url == f_old.url
    &&& f_new.name == f_old.name
    &&& f_new.lifecycle_events == f_old.lifecycle_events
    &&& f_new.main_world == f_old.main_world
    &&& f_new.secondary_world == f_old.secondary_world
    &&& forall|c: Seq<char>| #[trigger] f_new.has_child(c) ==> f_old.has_child(c)
}

/// Maintains the state of one target's frames and decides when a watched
/// navigation has completed.
#[derive(Debug)]
#[verifier::ext_equal]
pub struct FrameManager {
    /// The identifier of the main frame, once known.
    pub main_frame: Option<FrameId>,
    /// The tracked frames, a table keyed by frame id.
    pub frames: Vec<Frame>,
    /// The window, in milliseconds, within which a watched navigation must
    /// complete.
    pub timeout: u64,
    /// Navigations requested and not yet issued, oldest first.
    pub pending_navigations: Vec<(NavigationRequest, NavigationWatcher)>,
    /// The currently watched navigation and its deadline.
    pub navigation: Option<(NavigationWatcher, u64)>,
    /// Whether the isolated-world setup commands were already produced.
    pub isolated_world_sent: bool,
}

impl FrameManager {
    /// Whether a frame with the given id is tracked.
    pub open spec fn tracks(&self, id: Seq<char>) -> bool {
        exists|i: int| 0 <= i < self.frames@.len() && #[trigger] self.frames@[i].id.0@ == id
    }

    /// The table position of the frame with the given id.
    pub open spec fn idx_of(&self, id: Seq<char>) -> int {
        choose|i: int| 0 <= i < self.frames@.len() && #[trigger] self.frames@[i].id.0@ == id
    }

    /// The tracked frame with the given id.
    pub open spec fn frame_of(&self, id: Seq<char>) -> Frame {
        self.frames@[self.idx_of(id)]
    }

    /// Frame ids key the table: no two entries share one.
    pub open spec fn wf(&self) -> bool {
        forall|i: int, j: int|
            0 <= i < j < self.frames@.len() ==> (#[trigger] self.frames@[i].id.0@) != (
            #[trigger] self.frames@[j].id.0@)
    }

    /// The table position holding a tracked id is unique.
    pub proof fn lemma_idx_of(&self, i: int)
        requires
            self.wf(),
            0 <= i < self.frames@.len(),
        ensures
            self.idx_of(self.frames@[i].id.0@) == i,
            self.tracks(self.frames@[i].id.0@),
    {
        let id = self.frames@[i].id.0@;
        assert(self.tracks(id));
        let j = self.idx_of(id);
        if i != j {
            assert(false);
        }
    }

    /// A fresh manager: no frames, nothing watched.
    pub fn new() -> (r: FrameManager)
        ensures
            r.wf(),
            r.main_frame is None,
            r.frames@.len() == 0,
            r.timeout == NAVIGATION_TIMEOUT,
            r.pending_navigations@.len() == 0,
            r.navigation is None,
            !r.isolated_world_sent,
    {
        FrameManager {
            main_frame: None,
            frames: Vec::new(),
            timeout: NAVIGATION_TIMEOUT,
            pending_navigations: Vec::new(),
            navigation: None,
            isolated_world_sent: false,
        }
    }

    /// The table position of the frame with the given id (executable form).
    pub fn find(&self, id: &FrameId) -> (r: Option<usize>)
        requires
            self.wf(),
        ensures
            match r {
                Some(i) => i < self.frames@.len() && self.frames@[i as int].id.0@ == id.0@
                    && self.tracks(id.0@) && self.idx_of(id.0@) == i,
                None => !self.tracks(id.0@),
            },
    {
        let n = self.frames.len();
        let mut i: usize = 0;
        while i < n
            invariant
                self.wf(),
                n == self.frames@.len(),
                i <= n,
                forall|j: int| 0 <= j < i ==> (#[trigger] self.frames@[j].id.0@) != id.0@,
            decreases n - i,
        {
            if self.frames[i].id.same(id) {
                proof {
                    self.lemma_idx_of(i as int);
                }
                return Some(i);
            }
            i = i + 1;
        }
        None
    }

    /// The commands that initialize frame tracking for one target, in
    /// order: enable the Page domain, snapshot the frame tree, enable
    /// lifecycle events, enable the Runtime domain.
    pub fn init_commands() -> (r: CommandChain)
        ensures
            r.wf(),
            r.waiting is None,
            r.timeout == crate::cmd::REQUEST_TIMEOUT,
            r.pending().len() == 4,
            r.pending()[0].0@ == "Page.enable"@ && r.pending()[0].1@ == "{}"@,
            r.pending()[1].0@ == "Page.getFrameTree"@ && r.pending()[1].1@ == "{}"@,
            r.pending()[2].0@ == "Page.setLifecycleEventsEnabled"@ && r.pending()[2].1@
                == "{\"enabled\":true}"@,
            r.pending()[3].0@ == "Runtime.enable"@ && r.pending()[3].1@ == "{}"@,
    {
        let mut cmds: Vec<(String, String)> = Vec::new();
        cmds.push(("Page.enable".to_owned(), "{}".to_owned()));
        cmds.push(("Page.getFrameTree".to_owned(), "{}".to_owned()));
        cmds.push(
            ("Page.setLifecycleEventsEnabled".to_owned(), "{\"enabled\":true}".to_owned()),
        );
        cmds.push(("Runtime.enable".to_owned(), "{}".to_owned()));
        CommandChain::new(cmds)
    }

    /// The main frame, once known and tracked.
    pub fn main_frame(&self) -> (r: Option<&Frame>)
        requires
            self.wf(),
        ensures
            match r {
                Some(f) => self.main_frame matches Some(m) && self.tracks(m.0@) && *f
                    == self.frame_of(m.0@),
                None => match self.main_frame {
                    Some(m) => !self.tracks(m.0@),
                    None => true,
                },
            },
    {
        match &self.main_frame {
            Some(m) => match self.find(m) {
                Some(i) => Some(&self.frames[i]),
                None => None,
            },
            None => None,
        }
    }

    /// The tracked frame with the given id.
    pub fn frame(&self, id: &FrameId) -> (r: Option<&Frame>)
        requires
            self.wf(),
        ensures
            match r {
                Some(f) => self.tracks(id.0@) && *f == self.frame_of(id.0@),
                None => !self.tracks(id.0@),
            },
    {
        match self.find(id) {
            Some(i) => Some(&self.frames[i]),
            None => None,
        }
    }

    /// The identifiers of all tracked frames, in table order.
    pub fn all_frame_ids(&self) -> (r: Vec<FrameId>)
        ensures
            r@.len() == self.frames@.len(),
            forall|i: int| 0 <= i < r@.len() ==> r@[i] == self.frames@[i].id,
    {
        let n = self.frames.len();
        let mut out: Vec<FrameId> = Vec::new();
        let mut i: usize = 0;
        while i < n
            invariant
                n == self.frames@.len(),
                i <= n,
                out@.len() == i,
                forall|j: int| 0 <= j < i ==> out@[j] == self.frames@[j].id,
            decreases n - i,
        {
            out.push(self.frames[i].id.clone());
            i = i + 1;
        }
        out
    }

    /// What queuing a navigation against the frame named by `frame_id_v`
    /// does: one new entry at the back — the request paired with a watcher
    /// for that frame expecting the `load` milestone, with the frame's
    /// current loader as its snapshot — and nothing else moved.
    pub open spec fn queued_navigation_rel(
        pre: FrameManager,
        post: FrameManager,
        req: NavigationRequest,
        frame_id_v: Seq<char>,
    ) -> bool {
        &&& post.pending_navigations@.len() == pre.pending_navigations@.len() + 1
        &&& ({
            let entry = post.pending_navigations@.last();
            &&& entry.0 == req
            &&& entry.1.id == req.id
            &&& entry.1.frame_id.0@ == frame_id_v
            &&& entry.1.loader_id == (if pre.tracks(frame_id_v) {
                pre.frame_of(frame_id_v).loader_id
            } else {
                None::<LoaderId>
            })
            &&& !entry.1.same_document_navigation
            &&& entry.1.expected_lifecycle@.len() == 1
            &&& entry.1.expected_lifecycle@[0]@ == load_milestone()
        })
        &&& post.pending_navigations@.take(pre.pending_navigations@.len() as int)
            == pre.pending_navigations@
        &&& post.frames == pre.frames
        &&& post.main_frame == pre.main_frame
        &&& post.navigation == pre.navigation
        &&& post.timeout == pre.timeout
        &&& post.isolated_world_sent == pre.isolated_world_sent
    }

    /// What [`Self::goto`] does: with a main frame known, exactly the entry
    /// [`Self::navigate_frame`] queues against it; without one, nothing.
    pub open spec fn goto_rel(pre: FrameManager, post: FrameManager, req: NavigationRequest) -> bool {
        match pre.main_frame {
            Some(m) => Self::queued_navigation_rel(pre, post, req, m.0@),
            None => post == pre,
        }
    }

    /// Queues a navigation of the main frame; a request before any main
    /// frame is known is dropped.
    pub fn goto(&mut self, req: NavigationRequest)
        requires
            old(self).wf(),
        ensures
            final(self).wf(),
            Self::goto_rel(*old(self), *final(self), req),
    {
        let main = match &self.main_frame {
            Some(m) => Some(m.clone()),
            None => None,
        };
        match main {
            Some(m) => {
                proof {
                    assert(m == old(self).main_frame.unwrap());
                }
                self.navigate_frame(m, req);
                proof {
                    assert(FrameManager::queued_navigation_rel(
                        *old(self),
                        *self,
                        req,
                        old(self).main_frame.unwrap().0@,
                    ));
                }
            },
            None => {},
        }
    }

    /// Queues a navigation of the given frame: a watcher expecting the
    /// `load` milestone, with the frame's current loader as its snapshot.
    pub fn navigate_frame(&mut self, frame_id: FrameId, req: NavigationRequest)
        requires
            old(self).wf(),
        ensures
            final(self).wf(),
            final(self).pending_navigations@.len() == old(self).pending_navigations@.len() + 1,
            ({
                let entry = final(self).pending_navigations@.last();
                &&& entry.0 == req
                &&& entry.1.id == req.id
                &&& entry.1.frame_id == frame_id
                &&& entry.1.loader_id == (if old(self).tracks(frame_id.0@) {
                    old(self).frame_of(frame_id.0@).loader_id
                } else {
                    None::<LoaderId>
                })
                &&& !entry.1.same_document_navigation
                &&& entry.1.expected_lifecycle@.len() == 1
                &&& entry.1.expected_lifecycle@[0]@ == load_milestone()
            }),
            final(self).pending_navigations@.take(
                old(self).pending_navigations@.len() as int,
            ) == old(self).pending_navigations@,
            final(self).frames == old(self).frames,
            final(self).main_frame == old(self).main_frame,
            final(self).navigation == old(self).navigation,
            final(self).timeout == old(self).timeout,
            final(self).isolated_world_sent == old(self).isolated_world_sent,
    {
        let loader_id = match self.find(&frame_id) {
            Some(i) => match &self.frames[i].loader_id {
                Some(l) => Some(l.clone()),
                None => None,
            },
            None => None,
        };
        let watcher = NavigationWatcher::until_page_load(req.id, frame_id, loader_id);
        self.pending_navigations.push((req, watcher));
        proof {
            assert(final(self).pending_navigations@.take(
                old(self).pending_navigations@.len() as int,
            ) =~= old(self).pending_navigations@);
        }
    }
}

impl Frame {
    /// Removes every occurrence of `id` from the frame's child set.
    #[verifier::rlimit(50)]
    pub fn remove_child(&mut self, id: &FrameId)
        ensures
            forall|c: Seq<char>|
                #[trigger] final(self).has_child(c) <==> (old(self).has_child(c) && c != id.0@),
            final(self).parent_frame == old(self).parent_frame,
            final(self).id == old(self).id,
            final(self).loader_id == old(self).loader_id,
            final(self).url == old(self).url,
            final(self).name == old(self).name,
            final(self).lifecycle_events == old(self).lifecycle_events,
            final(self).main_world == old(self).main_world,
            final(self).secondary_world == old(self).secondary_world,
    {
        let n = self.child_frames.len();
        let mut kept: Vec<FrameId> = Vec::new();
        let mut i: usize = 0;
        while i < n
            invariant
                n == self.child_frames@.len(),
                i <= n,
                forall|j: int| 0 <= j < kept@.len() ==> (#[trigger] kept@[j].0@) != id.0@,
                forall|j: int|
                    0 <= j < kept@.len() ==> exists|k: int|
                        0 <= k < i && (#[trigger] kept@[j].0@) == self.child_frames@[k].0@,
                forall|k: int|
                    0 <= k < i && (#[trigger] self.child_frames@[k].0@) != id.0@ ==> exists|j: int|
                        0 <= j < kept@.len() && kept@[j].0@ == self.child_frames@[k].0@,
            decreases n - i,
        {
            let ghost kept0 = kept@;
            if !self.child_frames[i].same(id) {
                kept.push(self.child_frames[i].clone());
            }
            proof {
                assert forall|k: int|
                    0 <= k < i + 1 && (#[trigger] self.child_frames@[k].0@) != id.0@ implies exists|
                    j: int,
                |
                    0 <= j < kept@.len() && kept@[j].0@ == self.child_frames@[k].0@ by {
                    if k == i {
                        assert(kept@[kept@.len() - 1].0@ == self.child_frames@[k].0@);
                    } else {
                        let j = choose|j: int|
                            0 <= j < kept0.len() && kept0[j].0@ == self.child_frames@[k].0@;
                        assert(kept@[j].0@ == self.child_frames@[k].0@);
                    }
                }
                assert forall|j: int| 0 <= j < kept@.len() implies exists|k: int|
                    0 <= k < i + 1 && (#[trigger] kept@[j].0@) == self.child_frames@[k].0@ by {
                    if j < kept0.len() {
                        assert(kept@[j] == kept0[j]);
                        let k = choose|k: int|
                            0 <= k < i && kept0[j].0@ == self.child_frames@[k].0@;
                        assert(kept@[j].0@ == self.child_frames@[k].0@);
                    } else {
                        assert(kept@[j].0@ == self.child_frames@[i as int].0@);
                    }
                }
            }
            i = i + 1;
        }
        let ghost orig = self.child_frames@;
        self.child_frames = kept;
        proof {
            assert forall|c: Seq<char>| #[trigger]
                self.has_child(c) implies (old(self).has_child(c) && c != id.0@) by {
                let j = choose|j: int|
                    0 <= j < self.child_frames@.len() && self.child_frames@[j].0@ == c;
                let k = choose|k: int|
                    0 <= k < orig.len() && self.child_frames@[j].0@ == orig[k].0@;
                assert(old(self).child_frames@[k].0@ == c);
            }
            assert forall|c: Seq<char>| (old(self).has_child(c) && c != id.0@) implies #[trigger]
                self.has_child(c) by {
                let k = choose|k: int|
                    0 <= k < orig.len() && old(self).child_frames@[k].0@ == c;
                let j = choose|j: int|
                    0 <= j < self.child_frames@.len() && self.child_frames@[j].0@ == orig[k].0@;
                assert(self.child_frames@[j].0@ == c);
            }
        }
    }
}

impl FrameManager {
    /// Puts a frame in the table: replaces the entry with the same id, or
    /// appends a new one.
    fn insert_frame(&mut self, f: Frame)
        requires
            old(self).wf(),
        ensures
            final(self).wf(),
            final(self).tracks(f.id.0@),
            final(self).frame_of(f.id.0@) == f,
            final(self).frames@.len() == old(self).frames@.len() + (if old(self).tracks(f.id.0@) {
                0int
            } else {
                1int
            }),
            forall|k: Seq<char>|
                k != f.id.0@ ==> (#[trigger] final(self).tracks(k) <==> old(self).tracks(k)),
            forall|k: Seq<char>|
                k != f.id.0@ && #[trigger] final(self).tracks(k) ==> final(self).frame_of(k) == old(
                    self,
                ).frame_of(k),
            final(self).main_frame == old(self).main_frame,
            final(self).pending_navigations == old(self).pending_navigations,
            final(self).navigation == old(self).navigation,
            final(self).timeout == old(self).timeout,
            final(self).isolated_world_sent == old(self).isolated_world_sent,
    {
        let ghost fid = f.id.0@;
        match self.find(&f.id) {
            Some(i) => {
                self.frames[i] = f;
                proof {
                    assert(self.frames@[i as int].id.0@ == fid);
                    self.lemma_idx_of(i as int);
                    assert forall|k: Seq<char>| k != fid && #[trigger] self.tracks(k) implies old(
                        self,
                    ).tracks(k) && self.frame_of(k) == old(self).frame_of(k) by {
                        let j = self.idx_of(k);
                        assert(self.frames@[j].id.0@ == k);
                        assert(j != i);
                        assert(old(self).frames@[j].id.0@ == k);
                        old(self).lemma_idx_of(j);
                    }
                    assert forall|k: Seq<char>| k != fid && #[trigger] old(self).tracks(
                        k,
                    ) implies self.tracks(k) by {
                        let j = old(self).idx_of(k);
                        assert(self.frames@[j].id.0@ == k);
                    }
                }
            },
            None => {
                let ghost oldlen = self.frames@.len();
                self.frames.push(f);
                proof {
                    assert(self.frames@[oldlen as int].id.0@ == fid);
                    assert(self.wf()) by {
                        assert forall|i: int, j: int|
                            0 <= i < j < self.frames@.len() implies (
                        #[trigger] self.frames@[i].id.0@) != (#[trigger] self.frames@[j].id.0@) by {
                            if j < oldlen {
                            } else {
                                assert(old(self).frames@[i].id.0@ != fid) by {
                                    if old(self).frames@[i].id.0@ == fid {
                                        old(self).lemma_idx_of(i);
                                    }
                                }
                            }
                        }
                    }
                    self.lemma_idx_of(oldlen as int);
                    assert forall|k: Seq<char>| k != fid && #[trigger] self.tracks(k) implies old(
                        self,
                    ).tracks(k) && self.frame_of(k) == old(self).frame_of(k) by {
                        let j = self.idx_of(k);
                        assert(self.frames@[j].id.0@ == k);
                        assert(j != oldlen);
                        assert(old(self).frames@[j].id.0@ == k);
                        old(self).lemma_idx_of(j);
                    }
                    assert forall|k: Seq<char>| k != fid && #[trigger] old(self).tracks(
                        k,
                    ) implies self.tracks(k) by {
                        let j = old(self).idx_of(k);
                        assert(self.frames@[j].id.0@ == k);
                    }
                }
            },
        }
    }

    /// What attaching a frame under a parent does.  Attaching an already
    /// tracked frame changes nothing (the operation is idempotent); an
    /// attachment without a parent or under an unknown parent is dropped;
    /// otherwise exactly one fresh frame appears under the parent and every
    /// other frame reads as before.
    pub open spec fn attach_rel(
        pre: FrameManager,
        post: FrameManager,
        frame_id: FrameId,
        parent_frame_id: Option<FrameId>,
    ) -> bool {
        &&& (pre.tracks(frame_id.0@) ==> post == pre)
        &&& (match parent_frame_id {
            None => post == pre,
            Some(p) => {
                if pre.tracks(frame_id.0@) {
                    post == pre
                } else if !pre.tracks(p.0@) {
                    post == pre
                } else {
                    &&& post.frames@.len() == pre.frames@.len() + 1
                    &&& post.tracks(frame_id.0@)
                    &&& post.frame_of(frame_id.0@).parent_frame == Some(p)
                    &&& post.frame_of(frame_id.0@).child_frames@.len() == 0
                    &&& post.frame_of(frame_id.0@).lifecycle_events@.len() == 0
                    &&& post.frame_of(frame_id.0@).loader_id is None
                    &&& post.frame_of(frame_id.0@).url is None
                    &&& post.frame_of(p.0@).has_child(frame_id.0@)
                    &&& frame_shrunk_except_child_added(
                        post.frame_of(p.0@),
                        pre.frame_of(p.0@),
                        frame_id.0@,
                    )
                    &&& forall|k: Seq<char>|
                        k != frame_id.0@ && k != p.0@ ==> (#[trigger] post.tracks(k)
                            <==> pre.tracks(k))
                    &&& forall|k: Seq<char>|
                        k != frame_id.0@ && k != p.0@ && #[trigger] post.tracks(k)
                            ==> post.frame_of(k) == pre.frame_of(k)
                }
            },
        })
        &&& post.main_frame == pre.main_frame
        &&& post.pending_navigations == pre.pending_navigations
        &&& post.navigation == pre.navigation
        &&& post.timeout == pre.timeout
        &&& post.isolated_world_sent == pre.isolated_world_sent
    }

    /// A frame was attached under a tracked parent.  Attaching an already
    /// tracked frame changes nothing — the operation is idempotent — and an
    /// attachment under an unknown parent is dropped.
    pub fn on_frame_attached(&mut self, frame_id: FrameId, parent_frame_id: Option<FrameId>)
        requires
            old(self).wf(),
        ensures
            final(self).wf(),
            Self::attach_rel(*old(self), *final(self), frame_id, parent_frame_id),
    {
        if self.find(&frame_id).is_some() {
            return ;
        }
        let parent = match &parent_frame_id {
            Some(p) => p.clone(),
            None => {
                return ;
            },
        };
        proof {
            assert(parent_frame_id == Some(parent));
        }
        let pi = match self.find(&parent) {
            Some(i) => i,
            None => {
                return ;
            },
        };
        proof {
            assert(parent.0@ != frame_id.0@) by {
                if parent.0@ == frame_id.0@ {
                    assert(old(self).tracks(frame_id.0@));
                }
            }
        }
        let mut frame = Frame::new(frame_id.clone());
        frame.parent_frame = Some(parent.clone());
        let ghost pf_before = self.frames@[pi as int];
        let p_ref = &mut self.frames[pi];
        let had = p_ref.contains_child(&frame_id);
        if !had {
            p_ref.child_frames.push(frame_id.clone());
        }
        proof {
            assert(self.frames@[pi as int].id.0@ == parent.0@);
            self.lemma_idx_of(pi as int);
            assert(self.frame_of(parent.0@) == self.frames@[pi as int]);
            assert(self.frame_of(parent.0@).has_child(frame_id.0@)) by {
                let f = self.frames@[pi as int];
                if had {
                } else {
                    assert(f.child_frames@[f.child_frames@.len() - 1].0@ == frame_id.0@);
                }
            }
            // the parent's fields besides the child set are untouched, and
            // its child set only gained the new id
            assert(frame_shrunk_except_child_added(
                self.frames@[pi as int],
                pf_before,
                frame_id.0@,
            )) by {
                let f_new = self.frames@[pi as int];
                assert forall|c: Seq<char>| #[trigger]
                    f_new.has_child(c) implies (pf_before.has_child(c) || c == frame_id.0@) by {
                    let j = choose|j: int|
                        0 <= j < f_new.child_frames@.len() && f_new.child_frames@[j].0@ == c;
                    if j < pf_before.child_frames@.len() {
                        assert(pf_before.child_frames@[j].0@ == c);
                    }
                }
                assert forall|c: Seq<char>| #[trigger]
                    pf_before.has_child(c) implies f_new.has_child(c) by {
                    let j = choose|j: int|
                        0 <= j < pf_before.child_frames@.len() && pf_before.child_frames@[j].0@
                            == c;
                    assert(f_new.child_frames@[j].0@ == c);
                }
            }
            // positions other than the parent's are untouched
            assert forall|k: Seq<char>| k != parent.0@ implies (#[trigger] self.tracks(k) <==> old(
                self,
            ).tracks(k)) by {
                if self.tracks(k) {
                    let j = self.idx_of(k);
                    assert(old(self).frames@[j].id.0@ == k);
                }
                if old(self).tracks(k) {
                    let j = old(self).idx_of(k);
                    assert(self.frames@[j].id.0@ == k);
                }
            }
            assert forall|k: Seq<char>| k != parent.0@ && #[trigger] self.tracks(k) implies
                self.frame_of(k) == old(self).frame_of(k) by {
                let j = self.idx_of(k);
                assert(self.frames@[j].id.0@ == k);
                assert(old(self).frames@[j].id.0@ == k);
                old(self).lemma_idx_of(j);
                assert(j != pi);
            }
            assert(old(self).frame_of(parent.0@) == pf_before) by {
                old(self).lemma_idx_of(pi as int);
            }
        }
        let ghost mid = *self;
        self.insert_frame(frame);
        proof {
            assert(mid.tracks(parent.0@));
            assert(frame.id.0@ == frame_id.0@);
            assert(!mid.tracks(frame_id.0@)) by {
                if mid.tracks(frame_id.0@) {
                    let j = mid.idx_of(frame_id.0@);
                    assert(old(self).frames@[j].id.0@ == frame_id.0@);
                    assert(old(self).tracks(frame_id.0@));
                }
            }
            assert(self.tracks(parent.0@));
            assert(self.frame_of(parent.0@) == mid.frame_of(parent.0@));
            assert(self.frames@.len() == old(self).frames@.len() + 1);
        }
    }
}

/// A surviving frame shrinks transitively.
pub proof fn lemma_frame_shrunk_trans(a: Frame, b: Frame, c: Frame)
    requires
        frame_shrunk(a, b),
        frame_shrunk(b, c),
    ensures
        frame_shrunk(a, c),
{
    assert forall|ch: Seq<char>| #[trigger] a.has_child(ch) implies c.has_child(ch) by {
        assert(b.has_child(ch));
    }
}

impl FrameManager {
    /// Removes a frame and, recursively, the frames its child links reach,
    /// unlinking the frame from its parent's child set first.  Frames that
    /// survive keep every field; only child sets shrink.  Removing an
    /// untracked frame changes nothing.
    pub fn remove_frames_recursively(&mut self, id: &FrameId)
        requires
            old(self).wf(),
        ensures
            final(self).wf(),
            !final(self).tracks(id.0@),
            final(self).frames@.len() <= old(self).frames@.len(),
            forall|k: Seq<char>| #[trigger] final(self).tracks(k) ==> old(self).tracks(k),
            forall|k: Seq<char>| #[trigger]
                final(self).tracks(k) ==> frame_shrunk(
                    final(self).frame_of(k),
                    old(self).frame_of(k),
                ),
            old(self).tracks(id.0@) ==> forall|j: int|
                0 <= j < old(self).frame_of(id.0@).child_frames@.len() ==> !final(self).tracks(
                    #[trigger] old(self).frame_of(id.0@).child_frames@[j].0@,
                ),
            // the removed frame no longer stands in its parent's child set
            (old(self).tracks(id.0@) && old(self).frame_of(id.0@).parent_frame is Some) ==> ({
                let p = old(self).frame_of(id.0@).parent_frame.unwrap();
                final(self).tracks(p.0@) ==> !final(self).frame_of(p.0@).has_child(id.0@)
            }),
            !old(self).tracks(id.0@) ==> *final(self) == *old(self),
            final(self).main_frame == old(self).main_frame,
            final(self).pending_navigations == old(self).pending_navigations,
            final(self).navigation == old(self).navigation,
            final(self).timeout == old(self).timeout,
            final(self).isolated_world_sent == old(self).isolated_world_sent,
        decreases old(self).frames@.len(),
    {
        let i = match self.find(id) {
            Some(i) => i,
            None => {
                return ;
            },
        };
        let mut frame = self.frames.remove(i);
        proof {
            old(self).lemma_idx_of(i as int);
            assert(frame == old(self).frame_of(id.0@));
            assert(self.wf());
            // removal keeps every other entry, shifted
            assert forall|k: Seq<char>| #[trigger] self.tracks(k) implies old(self).tracks(k)
                && self.frame_of(k) == old(self).frame_of(k) && k != id.0@ by {
                let j = self.idx_of(k);
                let j0 = if j < i {
                    j
                } else {
                    j + 1
                };
                assert(old(self).frames@[j0].id.0@ == k);
                old(self).lemma_idx_of(j0);
                if k == id.0@ {
                    assert(j0 == i);
                    assert(false);
                }
            }
            assert(!self.tracks(id.0@));
        }
        let parent_opt = match &frame.parent_frame {
            Some(p) => Some(p.clone()),
            None => None,
        };
        frame.parent_frame = None;
        let ghost after_remove = *self;
        match &parent_opt {
            Some(p) => {
                match self.find(p) {
                    Some(pj) => {
                        let ghost pf0 = self.frames@[pj as int];
                        let p_ref = &mut self.frames[pj];
                        p_ref.remove_child(&frame.id);
                        proof {
                            assert(self.frames@[pj as int].id.0@ == p.0@);
                            self.lemma_idx_of(pj as int);
                            assert forall|k: Seq<char>| #[trigger]
                                self.tracks(k) implies after_remove.tracks(k) && frame_shrunk(
                                self.frame_of(k),
                                after_remove.frame_of(k),
                            ) by {
                                let j = self.idx_of(k);
                                assert(after_remove.frames@[j].id.0@ == k);
                                after_remove.lemma_idx_of(j);
                                if j != pj {
                                    assert(self.frames@[j] == after_remove.frames@[j]);
                                }
                            }
                            assert forall|k: Seq<char>| #[trigger]
                                after_remove.tracks(k) implies self.tracks(k) by {
                                let j = after_remove.idx_of(k);
                                assert(self.frames@[j].id.0@ == k);
                            }
                        }
                    },
                    None => {},
                }
            },
            None => {},
        }
        proof {
            assert(!self.tracks(id.0@)) by {
                if self.tracks(id.0@) {
                    assert(after_remove.tracks(id.0@));
                }
            }
            // at this point the parent, if it survives, no longer lists id
            if old(self).frame_of(id.0@).parent_frame is Some {
                let p = old(self).frame_of(id.0@).parent_frame.unwrap();
                assert(parent_opt == Some(p));
                if self.tracks(p.0@) {
                    assert(!self.frame_of(p.0@).has_child(id.0@));
                }
            }
        }
        // detach all child frames, recursively
        let children = frame.child_frames;
        let n = children.len();
        let ghost base = *self;
        let mut c: usize = 0;
        while c < n
            invariant
                n == children@.len(),
                c <= n,
                self.wf(),
                self.frames@.len() <= base.frames@.len(),
                base.frames@.len() <= old(self).frames@.len() - 1,
                !self.tracks(id.0@),
                forall|k: Seq<char>| #[trigger] self.tracks(k) ==> base.tracks(k),
                forall|k: Seq<char>| #[trigger]
                    self.tracks(k) ==> frame_shrunk(self.frame_of(k), base.frame_of(k)),
                forall|j: int| 0 <= j < c ==> !self.tracks(#[trigger] children@[j].0@),
                self.main_frame == base.main_frame,
                self.pending_navigations == base.pending_navigations,
                self.navigation == base.navigation,
                self.timeout == base.timeout,
                self.isolated_world_sent == base.isolated_world_sent,
            decreases n - c,
        {
            let ghost before = *self;
            self.remove_frames_recursively(&children[c]);
            proof {
                assert forall|k: Seq<char>| #[trigger]
                    self.tracks(k) implies base.tracks(k) && frame_shrunk(
                    self.frame_of(k),
                    base.frame_of(k),
                ) by {
                    assert(before.tracks(k));
                    lemma_frame_shrunk_trans(
                        self.frame_of(k),
                        before.frame_of(k),
                        base.frame_of(k),
                    );
                }
            }
            c = c + 1;
        }
        proof {
            assert forall|k: Seq<char>| #[trigger]
                self.tracks(k) implies old(self).tracks(k) && frame_shrunk(
                self.frame_of(k),
                old(self).frame_of(k),
            ) by {
                assert(base.tracks(k));
                assert(after_remove.tracks(k));
                lemma_frame_shrunk_trans(self.frame_of(k), base.frame_of(k), after_remove.frame_of(k));
                lemma_frame_shrunk_trans(
                    self.frame_of(k),
                    after_remove.frame_of(k),
                    old(self).frame_of(k),
                );
            }
            if old(self).frame_of(id.0@).parent_frame is Some {
                let p = old(self).frame_of(id.0@).parent_frame.unwrap();
                if self.tracks(p.0@) {
                    assert(base.tracks(p.0@));
                    assert(!base.frame_of(p.0@).has_child(id.0@));
                    assert(frame_shrunk(self.frame_of(p.0@), base.frame_of(p.0@)));
                    assert(!self.frame_of(p.0@).has_child(id.0@));
                }
            }
        }
    }

    /// Whether the frame `id` and every tracked frame reachable from it
    /// through child links (followed to the given depth) have observed all
    /// the milestones the watcher expects.  An untracked frame has nothing
    /// outstanding.  The depth is bounded by the number of tracked frames,
    /// which covers every acyclic chain of child links.
    pub open spec fn lifecycle_done(
        &self,
        expected: Seq<String>,
        id: Seq<char>,
        fuel: nat,
    ) -> bool
        decreases fuel,
    {
        if fuel == 0 {
            true
        } else if !self.tracks(id) {
            true
        } else {
            let f = self.frame_of(id);
            (forall|i: int|
                0 <= i < expected.len() ==> f.has_lifecycle(#[trigger] expected[i]@)) && (forall|
                j: int,
            |
                0 <= j < f.child_frames@.len() ==> self.lifecycle_done(
                    expected,
                    (#[trigger] f.child_frames@[j]).0@,
                    (fuel - 1) as nat,
                ))
        }
    }

    /// Whether the frame `id` and its reachable descendants have observed
    /// the watcher's milestones (executable form).
    pub fn check_lifecycle(
        &self,
        watcher: &NavigationWatcher,
        id: &FrameId,
        fuel: usize,
    ) -> (r: bool)
        requires
            self.wf(),
        ensures
            r == self.lifecycle_done(watcher.expected_lifecycle@, id.0@, fuel as nat),
        decreases fuel,
    {
        if fuel == 0 {
            return true;
        }
        let i = match self.find(id) {
            Some(i) => i,
            None => {
                return true;
            },
        };
        let ne = watcher.expected_lifecycle.len();
        let mut e: usize = 0;
        while e < ne
            invariant
                self.wf(),
                fuel >= 1,
                ne == watcher.expected_lifecycle@.len(),
                e <= ne,
                i < self.frames@.len(),
                self.frames@[i as int].id.0@ == id.0@,
                self.idx_of(id.0@) == i,
                forall|k: int|
                    0 <= k < e ==> self.frames@[i as int].has_lifecycle(
                        #[trigger] watcher.expected_lifecycle@[k]@,
                    ),
            decreases ne - e,
        {
            if !self.frames[i].contains_lifecycle(watcher.expected_lifecycle[e].as_str()) {
                proof {
                    let exp = watcher.expected_lifecycle@;
                    let f = self.frame_of(id.0@);
                    assert(f == self.frames@[i as int]);
                    assert(!f.has_lifecycle(exp[e as int]@));
                    assert(!(forall|k: int|
                        0 <= k < exp.len() ==> f.has_lifecycle(#[trigger] exp[k]@))) by {
                        assert(0 <= e < exp.len() && !f.has_lifecycle(exp[e as int]@));
                    }
                    assert(self.tracks(id.0@)) by {
                        assert(self.frames@[i as int].id.0@ == id.0@);
                    }
                    assert(fuel as nat != 0);
                    assert(!self.lifecycle_done(exp, id.0@, fuel as nat));
                }
                return false;
            }
            e = e + 1;
        }
        let nc = self.frames[i].child_frames.len();
        let mut c: usize = 0;
        while c < nc
            invariant
                self.wf(),
                ne == watcher.expected_lifecycle@.len(),
                i < self.frames@.len(),
                self.frames@[i as int].id.0@ == id.0@,
                self.idx_of(id.0@) == i,
                nc == self.frames@[i as int].child_frames@.len(),
                c <= nc,
                fuel >= 1,
                forall|k: int|
                    0 <= k < ne ==> self.frames@[i as int].has_lifecycle(
                        #[trigger] watcher.expected_lifecycle@[k]@,
                    ),
                forall|k: int|
                    0 <= k < c ==> self.lifecycle_done(
                        watcher.expected_lifecycle@,
                        (#[trigger] self.frames@[i as int].child_frames@[k]).0@,
                        (fuel - 1) as nat,
                    ),
            decreases nc - c,
        {
            if !self.check_lifecycle(watcher, &self.frames[i].child_frames[c], fuel - 1) {
                proof {
                    assert(self.frame_of(id.0@) == self.frames@[i as int]);
                    assert(!self.lifecycle_done(
                        watcher.expected_lifecycle@,
                        self.frame_of(id.0@).child_frames@[c as int].0@,
                        (fuel - 1) as nat,
                    ));
                }
                return false;
            }
            c = c + 1;
        }
        proof {
            assert(self.frame_of(id.0@) == self.frames@[i as int]);
        }
        true
    }

    /// What the milestone check says depends on the frame table alone.
    pub proof fn lemma_lifecycle_done_congruence(
        a: FrameManager,
        b: FrameManager,
        expected: Seq<String>,
        id: Seq<char>,
        fuel: nat,
    )
        requires
            a.frames == b.frames,
        ensures
            a.lifecycle_done(expected, id, fuel) == b.lifecycle_done(expected, id, fuel),
        decreases fuel,
    {
        if fuel > 0 {
            assert(a.tracks(id) == b.tracks(id));
            if a.tracks(id) {
                assert(a.idx_of(id) == b.idx_of(id));
                let f = a.frame_of(id);
                assert forall|j: int| 0 <= j < f.child_frames@.len() implies a.lifecycle_done(
                    expected,
                    (#[trigger] f.child_frames@[j]).0@,
                    (fuel - 1) as nat,
                ) == b.lifecycle_done(
                    expected,
                    f.child_frames@[j].0@,
                    (fuel - 1) as nat,
                ) by {
                    Self::lemma_lifecycle_done_congruence(
                        a,
                        b,
                        expected,
                        f.child_frames@[j].0@,
                        (fuel - 1) as nat,
                    );
                }
            }
        }
    }

    /// Whether two loader markers are the same.
    pub open spec fn loader_eq(a: Option<LoaderId>, b: Option<LoaderId>) -> bool {
        match (a, b) {
            (Some(x), Some(y)) => x.0@ == y.0@,
            (None, None) => true,
            _ => false,
        }
    }

    /// How a watched navigation of a tracked frame resolves right now, if
    /// it does: the expected milestones must have been observed on the
    /// frame and its reachable descendants, and — to guard against stale
    /// bookkeeping from the previous navigation — either the frame's loader
    /// changed (a new document) or a same-document navigation event was
    /// separately observed.  Milestone completeness alone, with an
    /// unchanged loader and no same-document event, resolves nothing.
    pub open spec fn nav_resolution(&self, w: NavigationWatcher) -> Option<NavigationOk> {
        if !self.lifecycle_done(w.expected_lifecycle@, w.frame_id.0@, self.frames@.len() as nat) {
            None
        } else if Self::loader_eq(self.frame_of(w.frame_id.0@).loader_id, w.loader_id)
            && !w.same_document_navigation {
            None
        } else if w.same_document_navigation {
            Some(NavigationOk::SameDocumentNavigation(w.id))
        } else {
            Some(NavigationOk::NewDocumentNavigation(w.id))
        }
    }

    /// Compares two loader markers (executable form).
    fn loader_eq_x(a: &Option<LoaderId>, b: &Option<LoaderId>) -> (r: bool)
        ensures
            r == Self::loader_eq(*a, *b),
    {
        match (a, b) {
            (Some(x), Some(y)) => x.same(y),
            (None, None) => true,
            _ => false,
        }
    }

    /// What [`Self::poll`] reports, as a function of the state and time.
    pub open spec fn spec_poll_result(fm: FrameManager, now: u64) -> Option<FrameEvent> {
        match fm.navigation {
            Some(wd) => {
                let w = wd.0;
                let deadline = wd.1;
                if now > deadline {
                    Some(
                        FrameEvent::NavigationResult(
                            Err(NavigationError::Timeout { id: w.id, now, deadline }),
                        ),
                    )
                } else if !fm.tracks(w.frame_id.0@) {
                    Some(
                        FrameEvent::NavigationResult(
                            Err(NavigationError::FrameNotFound { id: w.id, frame: w.frame_id }),
                        ),
                    )
                } else {
                    match fm.nav_resolution(w) {
                        Some(ok) => Some(FrameEvent::NavigationResult(Ok(ok))),
                        None => None,
                    }
                }
            },
            None => {
                if fm.pending_navigations@.len() > 0 {
                    let req = fm.pending_navigations@[0].0;
                    let w = fm.pending_navigations@[0].1;
                    Some(
                        FrameEvent::NavigationRequest(
                            req.id,
                            NavigateParams {
                                url: req.url,
                                referrer: req.referer,
                                frame_id: Some(w.frame_id),
                            },
                        ),
                    )
                } else {
                    None
                }
            },
        }
    }

    /// How one call of [`Self::poll`] relates the state before to the state
    /// after and to what it reports.
    pub open spec fn poll_rel(
        pre: FrameManager,
        post: FrameManager,
        r: Option<FrameEvent>,
        now: u64,
    ) -> bool {
        &&& post.frames == pre.frames
        &&& post.main_frame == pre.main_frame
        &&& post.timeout == pre.timeout
        &&& post.isolated_world_sent == pre.isolated_world_sent
        &&& r == Self::spec_poll_result(pre, now)
        &&& (match pre.navigation {
            Some(wd) => {
                &&& post.pending_navigations == pre.pending_navigations
                &&& post.navigation == (if now > wd.1 || !pre.tracks(wd.0.frame_id.0@)
                    || pre.nav_resolution(wd.0) is Some {
                    None
                } else {
                    pre.navigation
                })
            },
            None => {
                if pre.pending_navigations@.len() > 0 {
                    &&& post.pending_navigations@ == pre.pending_navigations@.skip(1)
                    &&& post.navigation == Some(
                        (pre.pending_navigations@[0].1, deadline_after(now, pre.timeout)),
                    )
                } else {
                    post == pre
                }
            },
        })
    }

    /// Drives navigation tracking at time `now`:
    /// - a watched navigation whose deadline passed fails with a timeout
    ///   and stops being watched (it is reported exactly once);
    /// - a watched navigation whose frame is gone fails likewise;
    /// - a watched navigation that resolves (see [`Self::nav_resolution`])
    ///   reports its result and stops being watched;
    /// - otherwise, with nothing watched, the oldest queued navigation is
    ///   issued: its request is reported and its watcher armed with the
    ///   deadline `now` plus the navigation window.
    pub fn poll(&mut self, now: u64) -> (r: Option<FrameEvent>)
        requires
            old(self).wf(),
        ensures
            final(self).wf(),
            final(self).frames == old(self).frames,
            final(self).main_frame == old(self).main_frame,
            final(self).timeout == old(self).timeout,
            final(self).isolated_world_sent == old(self).isolated_world_sent,
            Self::poll_rel(*old(self), *final(self), r, now),
            (match old(self).navigation {
                Some(wd) => {
                    let w = wd.0;
                    let deadline = wd.1;
                    &&& final(self).pending_navigations == old(self).pending_navigations
                    &&& if now > deadline {
                        &&& (r matches Some(FrameEvent::NavigationResult(Err(
                            NavigationError::Timeout { id, now: n2, deadline: d2 },
                        ))) && id == w.id && n2 == now && d2 == deadline)
                        &&& final(self).navigation is None
                    } else if !old(self).tracks(w.frame_id.0@) {
                        &&& (r matches Some(FrameEvent::NavigationResult(Err(
                            NavigationError::FrameNotFound { id, frame },
                        ))) && id == w.id && frame == w.frame_id)
                        &&& final(self).navigation is None
                    } else {
                        match old(self).nav_resolution(w) {
                            Some(ok) => {
                                &&& (r matches Some(FrameEvent::NavigationResult(Ok(got)))
                                    && got == ok)
                                &&& final(self).navigation is None
                            },
                            None => {
                                &&& r is None
                                &&& *final(self) == *old(self)
                            },
                        }
                    }
                },
                None => {
                    if old(self).pending_navigations@.len() > 0 {
                        let req = old(self).pending_navigations@[0].0;
                        let w = old(self).pending_navigations@[0].1;
                        &&& (r matches Some(FrameEvent::NavigationRequest(id, params)) && id
                            == req.id && params.url == req.url && params.referrer == req.referer
                            && params.frame_id == Some(w.frame_id))
                        &&& final(self).pending_navigations@ == old(
                            self,
                        ).pending_navigations@.skip(1)
                        &&& final(self).navigation matches Some(armed) && armed.0 == w && armed.1
                            == deadline_after(now, old(self).timeout)
                    } else {
                        &&& r is None
                        &&& *final(self) == *old(self)
                    }
                },
            }),
    {
        let nav = self.navigation.take();
        match nav {
            Some((watcher, deadline)) => {
                if now > deadline {
                    return Some(
                        FrameEvent::NavigationResult(
                            Err(NavigationError::Timeout { id: watcher.id, now, deadline }),
                        ),
                    );
                }
                let fi = match self.find(&watcher.frame_id) {
                    Some(i) => i,
                    None => {
                        let frame = watcher.frame_id;
                        return Some(
                            FrameEvent::NavigationResult(
                                Err(NavigationError::FrameNotFound { id: watcher.id, frame }),
                            ),
                        );
                    },
                };
                proof {
                    old(self).lemma_idx_of(fi as int);
                    assert(old(self).frame_of(watcher.frame_id.0@) == self.frames@[fi as int]);
                }
                let fuel = self.frames.len();
                proof {
                    FrameManager::lemma_lifecycle_done_congruence(
                        *self,
                        *old(self),
                        watcher.expected_lifecycle@,
                        watcher.frame_id.0@,
                        fuel as nat,
                    );
                }
                if !self.check_lifecycle(&watcher, &watcher.frame_id, fuel) {
                    self.navigation = Some((watcher, deadline));
                    return None;
                }
                let same_loader = Self::loader_eq_x(&self.frames[fi].loader_id, &watcher.loader_id);
                if same_loader && !watcher.same_document_navigation {
                    self.navigation = Some((watcher, deadline));
                    return None;
                }
                if watcher.same_document_navigation {
                    Some(
                        FrameEvent::NavigationResult(
                            Ok(NavigationOk::SameDocumentNavigation(watcher.id)),
                        ),
                    )
                } else {
                    Some(
                        FrameEvent::NavigationResult(
                            Ok(NavigationOk::NewDocumentNavigation(watcher.id)),
                        ),
                    )
                }
            },
            None => {
                if self.pending_navigations.len() > 0 {
                    let (req, watcher) = self.pending_navigations.remove(0);
                    let params = NavigateParams {
                        url: req.url,
                        referrer: req.referer,
                        frame_id: Some(watcher.frame_id.clone()),
                    };
                    let id = req.id;
                    let deadline = if now <= u64::MAX - self.timeout {
                        now + self.timeout
                    } else {
                        u64::MAX
                    };
                    self.navigation = Some((watcher, deadline));
                    Some(FrameEvent::NavigationRequest(id, params))
                } else {
                    None
                }
            },
        }
    }

    /// What detaching a frame does: the frame, the frames reached through
    /// its child links, and its entry in its parent's child set are gone;
    /// survivors keep every field (child sets at most shrink); nothing else
    /// moves.  Detaching an untracked frame changes nothing.
    pub open spec fn detach_rel(pre: FrameManager, post: FrameManager, frame_id: FrameId) -> bool {
        &&& !post.tracks(frame_id.0@)
        &&& (forall|k: Seq<char>| #[trigger] post.tracks(k) ==> pre.tracks(k))
        &&& (forall|k: Seq<char>| #[trigger]
            post.tracks(k) ==> frame_shrunk(post.frame_of(k), pre.frame_of(k)))
        &&& (pre.tracks(frame_id.0@) ==> forall|j: int|
            0 <= j < pre.frame_of(frame_id.0@).child_frames@.len() ==> !post.tracks(
                (#[trigger] pre.frame_of(frame_id.0@).child_frames@[j]).0@,
            ))
        &&& ((pre.tracks(frame_id.0@) && pre.frame_of(frame_id.0@).parent_frame is Some) ==> ({
            let p = pre.frame_of(frame_id.0@).parent_frame.unwrap();
            post.tracks(p.0@) ==> !post.frame_of(p.0@).has_child(frame_id.0@)
        }))
        &&& (!pre.tracks(frame_id.0@) ==> post == pre)
        &&& post.main_frame == pre.main_frame
        &&& post.pending_navigations == pre.pending_navigations
        &&& post.navigation == pre.navigation
        &&& post.timeout == pre.timeout
        &&& post.isolated_world_sent == pre.isolated_world_sent
    }

    /// A frame was detached: it and the frames reachable through its child
    /// links are removed, and its parent's child set no longer lists it.
    pub fn on_frame_detached(&mut self, ev: &page::EventFrameDetached)
        requires
            old(self).wf(),
        ensures
            final(self).wf(),
            Self::detach_rel(*old(self), *final(self), ev.frame_id),
    {
        self.remove_frames_recursively(&ev.frame_id);
    }
}

impl FrameManager {
    /// After an update of the entry at `i` that kept its id, every other
    /// entry reads as before.
    proof fn lemma_update_at(pre: FrameManager, post: FrameManager, i: int)
        requires
            pre.wf(),
            0 <= i < pre.frames@.len(),
            post.frames@ == pre.frames@.update(i, post.frames@[i]),
            post.frames@[i].id.0@ == pre.frames@[i].id.0@,
        ensures
            post.wf(),
            forall|k: Seq<char>| #[trigger] post.tracks(k) <==> pre.tracks(k),
            forall|k: Seq<char>|
                k != pre.frames@[i].id.0@ && #[trigger] post.tracks(k) ==> post.frame_of(k)
                    == pre.frame_of(k),
            post.idx_of(pre.frames@[i].id.0@) == i,
            post.frame_of(pre.frames@[i].id.0@) == post.frames@[i],
    {
        assert forall|k: Seq<char>| #[trigger] post.tracks(k) implies pre.tracks(k) by {
            let j = post.idx_of(k);
            assert(pre.frames@[j].id.0@ == k);
        }
        assert forall|k: Seq<char>| #[trigger] pre.tracks(k) implies post.tracks(k) by {
            let j = pre.idx_of(k);
            assert(post.frames@[j].id.0@ == k);
        }
        assert(post.wf());
        post.lemma_idx_of(i);
        assert forall|k: Seq<char>|
            k != pre.frames@[i].id.0@ && #[trigger] post.tracks(k) implies post.frame_of(k)
            == pre.frame_of(k) by {
            let j = post.idx_of(k);
            assert(post.frames@[j].id.0@ == k);
            assert(j != i);
            assert(pre.frames@[j].id.0@ == k);
            pre.lemma_idx_of(j);
        }
    }

    /// What a same-document navigation event does: the named frame's URL
    /// changes in place, the active watcher notes the event when it names
    /// its frame, and nothing else moves.
    pub open spec fn within_doc_rel(
        pre: FrameManager,
        post: FrameManager,
        ev: page::EventNavigatedWithinDocument,
    ) -> bool {
        &&& post.frames@.len() == pre.frames@.len()
        &&& (forall|k: Seq<char>| #[trigger] post.tracks(k) <==> pre.tracks(k))
        &&& (pre.tracks(ev.frame_id.0@) ==> {
            let f_new = post.frame_of(ev.frame_id.0@);
            let f_old = pre.frame_of(ev.frame_id.0@);
            f_new == (Frame { url: Some(ev.url), ..f_old })
        })
        &&& (!pre.tracks(ev.frame_id.0@) ==> post.frames == pre.frames)
        &&& (forall|k: Seq<char>|
            k != ev.frame_id.0@ && #[trigger] post.tracks(k) ==> post.frame_of(k)
                == pre.frame_of(k))
        &&& post.navigation == (match pre.navigation {
            Some(wd) => Some(
                (
                    NavigationWatcher {
                        same_document_navigation: wd.0.same_document_navigation || wd.0.frame_id.0@
                            == ev.frame_id.0@,
                        ..wd.0
                    },
                    wd.1,
                ),
            ),
            None => None::<(NavigationWatcher, u64)>,
        })
        &&& post.main_frame == pre.main_frame
        &&& post.pending_navigations == pre.pending_navigations
        &&& post.timeout == pre.timeout
        &&& post.isolated_world_sent == pre.isolated_world_sent
    }

    /// A same-document navigation happened: the frame's URL changes in
    /// place, and the active watcher (if any) notes the event when it names
    /// its frame.
    pub fn on_frame_navigated_within_document(&mut self, ev: &page::EventNavigatedWithinDocument)
        requires
            old(self).wf(),
        ensures
            final(self).wf(),
            Self::within_doc_rel(*old(self), *final(self), *ev),
    {
        let nav = self.navigation.take();
        match nav {
            Some((mut w, d)) => {
                w.on_frame_navigated_within_document(ev);
                self.navigation = Some((w, d));
            },
            None => {},
        }
        match self.find(&ev.frame_id) {
            Some(i) => {
                let f_ref = &mut self.frames[i];
                f_ref.navigated_within_url(ev.url.clone());
                proof {
                    Self::lemma_update_at(*old(self), *self, i as int);
                }
            },
            None => {},
        }
    }

    /// What a stopped-loading report does: the named frame gains both
    /// remaining milestones and nothing else moves.
    pub open spec fn stopped_rel(
        pre: FrameManager,
        post: FrameManager,
        ev: page::EventFrameStoppedLoading,
    ) -> bool {
        &&& (forall|k: Seq<char>| #[trigger] post.tracks(k) <==> pre.tracks(k))
        &&& (pre.tracks(ev.frame_id.0@) ==> {
            let f_new = post.frame_of(ev.frame_id.0@);
            &&& f_new.has_lifecycle("DOMContentLoaded"@)
            &&& f_new.has_lifecycle(load_milestone())
            &&& forall|m: Seq<char>|
                #[trigger] f_new.has_lifecycle(m) <==> (pre.frame_of(ev.frame_id.0@).has_lifecycle(
                    m,
                ) || m == "DOMContentLoaded"@ || m == load_milestone())
        })
        &&& (!pre.tracks(ev.frame_id.0@) ==> post == pre)
        &&& (forall|k: Seq<char>|
            k != ev.frame_id.0@ && #[trigger] post.tracks(k) ==> post.frame_of(k) == pre.frame_of(
                k,
            ))
        &&& post.main_frame == pre.main_frame
        &&& post.pending_navigations == pre.pending_navigations
        &&& post.navigation == pre.navigation
        &&& post.timeout == pre.timeout
        &&& post.isolated_world_sent == pre.isolated_world_sent
    }

    /// A frame stopped loading: both remaining milestones are recorded for
    /// it.
    pub fn on_frame_stopped_loading(&mut self, ev: &page::EventFrameStoppedLoading)
        requires
            old(self).wf(),
        ensures
            final(self).wf(),
            Self::stopped_rel(*old(self), *final(self), *ev),
    {
        match self.find(&ev.frame_id) {
            Some(i) => {
                let f_ref = &mut self.frames[i];
                f_ref.on_loading_stopped();
                proof {
                    Self::lemma_update_at(*old(self), *self, i as int);
                }
            },
            None => {},
        }
    }

    /// A frame started loading; nothing is tracked for it here.
    pub fn on_frame_started_loading(&mut self, ev: &page::EventFrameStartedLoading)
        ensures
            *final(self) == *old(self),
    {
    }

    /// What a lifecycle milestone does to the table: `init` starts the
    /// frame's new document (the event's loader is taken, the milestone set
    /// resets to `init` alone); any other name is recorded into the set;
    /// nothing else moves.
    pub open spec fn lifecycle_rel(
        pre: FrameManager,
        post: FrameManager,
        ev: page::EventLifecycleEvent,
    ) -> bool {
        &&& (forall|k: Seq<char>| #[trigger] post.tracks(k) <==> pre.tracks(k))
        &&& (pre.tracks(ev.frame_id.0@) ==> {
            let f_new = post.frame_of(ev.frame_id.0@);
            let f_old = pre.frame_of(ev.frame_id.0@);
            if ev.name@ == "init"@ {
                &&& f_new.loader_id == Some(ev.loader_id)
                &&& f_new.lifecycle_events@.len() == 1
                &&& f_new.lifecycle_events@[0]@ == ev.name@
                &&& f_new.id == f_old.id
                &&& f_new.parent_frame == f_old.parent_frame
                &&& f_new.url == f_old.url
                &&& f_new.child_frames == f_old.child_frames
                &&& f_new.name == f_old.name
            } else {
                &&& f_new.loader_id == f_old.loader_id
                &&& f_new.lifecycle_events@ == (if f_old.has_lifecycle(ev.name@) {
                    f_old.lifecycle_events@
                } else {
                    f_old.lifecycle_events@.push(ev.name)
                })
                &&& f_new.id == f_old.id
                &&& f_new.parent_frame == f_old.parent_frame
                &&& f_new.url == f_old.url
                &&& f_new.child_frames == f_old.child_frames
                &&& f_new.name == f_old.name
            }
        })
        &&& (!pre.tracks(ev.frame_id.0@) ==> post == pre)
        &&& (forall|k: Seq<char>|
            k != ev.frame_id.0@ && #[trigger] post.tracks(k) ==> post.frame_of(k) == pre.frame_of(
                k,
            ))
        &&& post.main_frame == pre.main_frame
        &&& post.pending_navigations == pre.pending_navigations
        &&& post.navigation == pre.navigation
        &&& post.timeout == pre.timeout
        &&& post.isolated_world_sent == pre.isolated_world_sent
    }

    /// A lifecycle milestone arrived for a frame.  The `init` milestone
    /// starts the frame's new document: it takes the event's loader and
    /// resets the milestone set to `init` alone; any other milestone is
    /// recorded into the set.
    pub fn on_page_lifecycle_event(&mut self, ev: &page::EventLifecycleEvent)
        requires
            old(self).wf(),
        ensures
            final(self).wf(),
            Self::lifecycle_rel(*old(self), *final(self), *ev),
    {
        match self.find(&ev.frame_id) {
            Some(i) => {
                let is_init = str_eq(ev.name.as_str(), "init");
                let f_ref = &mut self.frames[i];
                if is_init {
                    f_ref.loader_id = Some(ev.loader_id.clone());
                    f_ref.lifecycle_events = Vec::new();
                }
                f_ref.insert_lifecycle(ev.name.clone());
                proof {
                    Self::lemma_update_at(*old(self), *self, i as int);
                }
            },
            None => {},
        }
    }
}

/// A frame entry after its document navigated: the stale children are gone,
/// the name and URL come from the payload, and the identity fields, the
/// loader and the observed milestones are carried over.
pub open spec fn renavigated(f_new: Frame, f_old: Frame, p: page::Frame) -> bool {
    &&& f_new.child_frames@.len() == 0
    &&& f_new.name == p.name
    &&& (f_new.url matches Some(u) && u@ == p.url@ + (match p.url_fragment {
        Some(f) => f@,
        None => Seq::<char>::empty(),
    }))
    &&& f_new.loader_id == f_old.loader_id
    &&& f_new.lifecycle_events == f_old.lifecycle_events
    &&& f_new.parent_frame == f_old.parent_frame
}

impl FrameManager {
    /// Detaches the given child frames recursively, leaving everything else
    /// shrunk at most.
    fn remove_children(&mut self, children: &Vec<FrameId>)
        requires
            old(self).wf(),
        ensures
            final(self).wf(),
            final(self).frames@.len() <= old(self).frames@.len(),
            forall|k: Seq<char>| #[trigger] final(self).tracks(k) ==> old(self).tracks(k),
            forall|j: int| 0 <= j < children@.len() ==> !final(self).tracks(
                (#[trigger] children@[j]).0@,
            ),
            final(self).main_frame == old(self).main_frame,
            final(self).pending_navigations == old(self).pending_navigations,
            final(self).navigation == old(self).navigation,
            final(self).timeout == old(self).timeout,
            final(self).isolated_world_sent == old(self).isolated_world_sent,
    {
        let n = children.len();
        let mut c: usize = 0;
        while c < n
            invariant
                n == children@.len(),
                c <= n,
                self.wf(),
                self.frames@.len() <= old(self).frames@.len(),
                forall|k: Seq<char>| #[trigger] self.tracks(k) ==> old(self).tracks(k),
                forall|j: int| 0 <= j < c ==> !self.tracks((#[trigger] children@[j]).0@),
                self.main_frame == old(self).main_frame,
                self.pending_navigations == old(self).pending_navigations,
                self.navigation == old(self).navigation,
                self.timeout == old(self).timeout,
                self.isolated_world_sent == old(self).isolated_world_sent,
            decreases n - c,
        {
            self.remove_frames_recursively(&children[c]);
            c = c + 1;
        }
    }

    /// What a new-document navigation does to the frame table.  A tracked
    /// subframe keeps its entry (renavigated, stale child subtrees
    /// detached); an untracked subframe report is dropped; a top-level
    /// navigation reuses the main entry — carrying its fields over under
    /// the reported id, detaching its stale child subtrees — or creates the
    /// main frame on the first navigation.  Navigation tracking is never
    /// touched.
    pub open spec fn navigated_rel(pre: FrameManager, post: FrameManager, payload: page::Frame) -> bool {
        &&& (forall|k: Seq<char>|
            #[trigger] post.tracks(k) ==> (pre.tracks(k) || k == payload.id.0@))
        &&& (match payload.parent_id {
            Some(_) => {
                &&& post.main_frame == pre.main_frame
                &&& (!pre.tracks(payload.id.0@) ==> post == pre)
                &&& (pre.tracks(payload.id.0@) ==> {
                    &&& post.tracks(payload.id.0@)
                    &&& renavigated(
                        post.frame_of(payload.id.0@),
                        pre.frame_of(payload.id.0@),
                        payload,
                    )
                    &&& forall|j: int|
                        0 <= j < pre.frame_of(payload.id.0@).child_frames@.len() && (
                        #[trigger] pre.frame_of(payload.id.0@).child_frames@[j]).0@
                            != payload.id.0@ ==> !post.tracks(
                            pre.frame_of(payload.id.0@).child_frames@[j].0@,
                        )
                })
            },
            None => {
                &&& post.main_frame == Some(payload.id)
                &&& post.tracks(payload.id.0@)
                &&& (match pre.main_frame {
                    Some(m) => pre.tracks(m.0@) ==> {
                        &&& renavigated(
                            post.frame_of(payload.id.0@),
                            pre.frame_of(m.0@),
                            payload,
                        )
                        &&& forall|j: int|
                            0 <= j < pre.frame_of(m.0@).child_frames@.len() && (
                            #[trigger] pre.frame_of(m.0@).child_frames@[j]).0@ != payload.id.0@
                                ==> !post.tracks(pre.frame_of(m.0@).child_frames@[j].0@)
                    },
                    None => ({
                        let f = post.frame_of(payload.id.0@);
                        &&& f.child_frames@.len() == 0
                        &&& f.name == payload.name
                        &&& (f.url matches Some(u) && u@ == payload.url@ + (
                        match payload.url_fragment {
                            Some(g) => g@,
                            None => Seq::<char>::empty(),
                        }))
                        &&& f.loader_id is None
                        &&& f.lifecycle_events@.len() == 0
                        &&& f.parent_frame is None
                    }),
                })
            },
        })
        &&& post.pending_navigations == pre.pending_navigations
        &&& post.navigation == pre.navigation
        &&& post.timeout == pre.timeout
        &&& post.isolated_world_sent == pre.isolated_world_sent
    }

    /// A frame navigated to a new document.  A subframe keeps its table
    /// entry (its stale descendants are detached first); a top-level
    /// navigation reuses the existing main-frame entry — changing its id to
    /// the reported one rather than allocating a new entry — or creates the
    /// main frame on the first navigation.  A report for an untracked
    /// subframe is dropped.
    pub fn on_frame_navigated(&mut self, payload: &page::Frame)
        requires
            old(self).wf(),
        ensures
            final(self).wf(),
            Self::navigated_rel(*old(self), *final(self), *payload),
    {
        if payload.parent_id.is_some() {
            let i = match self.find(&payload.id) {
                Some(i) => i,
                None => {
                    return ;
                },
            };
            let mut fr = self.frames.remove(i);
            proof {
                old(self).lemma_idx_of(i as int);
                assert(fr == old(self).frame_of(payload.id.0@));
                assert(self.wf());
                assert forall|k: Seq<char>| #[trigger] self.tracks(k) implies old(self).tracks(
                    k,
                ) by {
                    let j = self.idx_of(k);
                    let j0 = if j < i {
                        j
                    } else {
                        j + 1
                    };
                    assert(old(self).frames@[j0].id.0@ == k);
                }
            }
            let children = fr.child_frames;
            fr.child_frames = Vec::new();
            proof {
                assert(children@ == old(self).frame_of(payload.id.0@).child_frames@);
                assert(fr.id.0@ == payload.id.0@);
            }
            let ghost s1 = *self;
            self.remove_children(&children);
            fr.navigated(payload);
            let ghost s2 = *self;
            self.insert_frame(fr);
            proof {
                assert forall|k: Seq<char>| #[trigger] self.tracks(k) implies (old(self).tracks(k)
                    || k == payload.id.0@) by {
                    if k != payload.id.0@ {
                        assert(s2.tracks(k));
                        assert(s1.tracks(k));
                    }
                }
                assert forall|j: int|
                    0 <= j < children@.len() && (#[trigger] children@[j]).0@
                        != payload.id.0@ implies !self.tracks(children@[j].0@) by {
                    assert(!s2.tracks(children@[j].0@));
                }
            }
        } else {
            let main_tracked = match &self.main_frame {
                Some(m) => self.find(m),
                None => None,
            };
            match main_tracked {
                Some(i) => {
                    self.main_frame = Some(payload.id.clone());
                    let mut fr = self.frames.remove(i);
                    proof {
                        old(self).lemma_idx_of(i as int);
                        assert(self.wf());
                        assert forall|k: Seq<char>| #[trigger] self.tracks(k) implies old(
                            self,
                        ).tracks(k) by {
                            let j = self.idx_of(k);
                            let j0 = if j < i {
                                j
                            } else {
                                j + 1
                            };
                            assert(old(self).frames@[j0].id.0@ == k);
                        }
                    }
                    let children = fr.child_frames;
                    proof {
                        let m = old(self).main_frame.unwrap();
                        assert(old(self).frame_of(m.0@) == old(self).frames@[i as int]);
                        assert(children@ == old(self).frame_of(m.0@).child_frames@);
                        assert(fr.id.0@ == m.0@);
                    }
                    fr.child_frames = Vec::new();
                    let ghost s1 = *self;
                    self.remove_children(&children);
                    fr.id = payload.id.clone();
                    fr.navigated(payload);
                    let ghost s2 = *self;
                    self.insert_frame(fr);
                    proof {
                        assert forall|k: Seq<char>| #[trigger] self.tracks(k) implies (old(
                            self,
                        ).tracks(k) || k == payload.id.0@) by {
                            if k != payload.id.0@ {
                                assert(s2.tracks(k));
                                assert(s1.tracks(k));
                            }
                        }
                        assert forall|j: int|
                            0 <= j < children@.len() && (#[trigger] children@[j]).0@
                                != payload.id.0@ implies !self.tracks(children@[j].0@) by {
                            assert(!s2.tracks(children@[j].0@));
                        }
                    }
                },
                None => {
                    let mut fr = Frame::new(payload.id.clone());
                    fr.navigated(payload);
                    self.main_frame = Some(payload.id.clone());
                    let ghost s2 = *self;
                    self.insert_frame(fr);
                    proof {
                        assert forall|k: Seq<char>| #[trigger] self.tracks(k) implies (old(
                            self,
                        ).tracks(k) || k == payload.id.0@) by {
                            if k != payload.id.0@ {
                                assert(s2.tracks(k));
                            }
                        }
                    }
                },
            }
        }
    }

    /// Installs a frame tree snapshot: the root is handled as a navigation
    /// — so a top-level snapshot makes its root the main frame — then each
    /// child carrying a parent reference is attached under this node and
    /// its subtree installed in turn.  A snapshot of one frame with no
    /// children is exactly a navigation of that frame.
    pub fn on_frame_tree(&mut self, tree: &page::FrameTree)
        requires
            old(self).wf(),
        ensures
            final(self).wf(),
            tree.frame.parent_id is None ==> final(self).main_frame == Some(tree.frame.id),
            tree.frame.parent_id is Some ==> final(self).main_frame == old(self).main_frame,
            tree.child_frames@.len() == 0 ==> Self::navigated_rel(
                *old(self),
                *final(self),
                tree.frame,
            ),
            final(self).pending_navigations == old(self).pending_navigations,
            final(self).navigation == old(self).navigation,
            final(self).timeout == old(self).timeout,
            final(self).isolated_world_sent == old(self).isolated_world_sent,
        decreases *tree,
    {
        self.on_frame_navigated(&tree.frame);
        proof {
            assert(Self::navigated_rel(*old(self), *self, tree.frame));
        }
        let ghost after_root_main = self.main_frame;
        let n = tree.child_frames.len();
        let mut c: usize = 0;
        while c < n
            invariant
                n == tree.child_frames@.len(),
                c <= n,
                self.wf(),
                self.main_frame == after_root_main,
                n == 0 ==> Self::navigated_rel(*old(self), *self, tree.frame),
                self.pending_navigations == old(self).pending_navigations,
                self.navigation == old(self).navigation,
                self.timeout == old(self).timeout,
                self.isolated_world_sent == old(self).isolated_world_sent,
            decreases n - c,
        {
            proof {
                assert(tree.child_frames@[c as int].frame.id.0@.len() >= 0);
            }
            let child = &tree.child_frames[c];
            self.on_frame_attached(child.frame.id.clone(), Some(tree.frame.id.clone()));
            if child.frame.parent_id.is_some() {
                self.on_frame_tree(child);
            }
            c = c + 1;
        }
    }

    /// Produces the isolated-world setup commands once: one
    /// `Page.createIsolatedWorld` per tracked frame.  Later calls produce
    /// nothing.
    pub fn ensure_isolated_world(&mut self, world_name: &str) -> (r: Option<CommandChain>)
        requires
            old(self).wf(),
        ensures
            final(self).wf(),
            final(self).frames == old(self).frames,
            final(self).main_frame == old(self).main_frame,
            final(self).pending_navigations == old(self).pending_navigations,
            final(self).navigation == old(self).navigation,
            final(self).timeout == old(self).timeout,
            final(self).isolated_world_sent,
            old(self).isolated_world_sent ==> r is None && *final(self) == *old(self),
            !old(self).isolated_world_sent ==> (r matches Some(chain) && {
                &&& chain.wf()
                &&& chain.waiting is None
                &&& chain.timeout == crate::cmd::REQUEST_TIMEOUT
                &&& chain.pending().len() == old(self).frames@.len()
                &&& forall|i: int|
                    0 <= i < chain.pending().len() ==> (#[trigger] chain.pending()[i]).0@
                        == "Page.createIsolatedWorld"@ && chain.pending()[i].1@
                        == crate::cdp::page::spec_isolated_world_params(
                        old(self).frames@[i].id.0@,
                        world_name@,
                    )
            }),
    {
        if self.isolated_world_sent {
            return None;
        }
        self.isolated_world_sent = true;
        let n = self.frames.len();
        let mut cmds: Vec<(String, String)> = Vec::new();
        let mut i: usize = 0;
        while i < n
            invariant
                n == self.frames@.len(),
                i <= n,
                cmds@.len() == i,
                forall|j: int|
                    0 <= j < i ==> (#[trigger] cmds@[j]).0@ == "Page.createIsolatedWorld"@
                        && cmds@[j].1@ == crate::cdp::page::spec_isolated_world_params(
                        self.frames@[j].id.0@,
                        world_name@,
                    ),
            decreases n - i,
        {
            let params = crate::cdp::page::CreateIsolatedWorldParams {
                frame_id: self.frames[i].id.clone(),
                world_name: world_name.to_owned(),
            };
            cmds.push(
                (crate::cdp::page::CreateIsolatedWorldParams::identifier(), params.to_json()),
            );
            i = i + 1;
        }
        Some(CommandChain::new(cmds))
    }
}

/// A parent frame after an attachment: every field unchanged, except that
/// `child` may have been added to its child set.
pub open spec fn frame_shrunk_except_child_added(
    f_new: Frame,
    f_old: Frame,
    child: Seq<char>,
) -> bool {
    &&& f_new.id == f_old.id
    &&& f_new.parent_frame == f_old.parent_frame
    &&& f_new.loader_id == f_old.loader_id
    &&& f_new.url == f_old.url
    &&& f_new.name == f_old.name
    &&& f_new.lifecycle_events == f_old.lifecycle_events
    &&& f_new.main_world == f_old.main_world
    &&& f_new.secondary_world == f_old.secondary_world
    &&& forall|c: Seq<char>|
        #[trigger] f_new.has_child(c) ==> (f_old.has_child(c) || c == child)
    &&& f_new.has_child(child)
    &&& forall|c: Seq<char>| #[trigger] f_old.has_child(c) ==> f_new.has_child(c)
}

} // verus!
