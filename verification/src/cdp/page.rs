//! Types of the Page protocol domain used by the frame tracker: frame
//! payloads, lifecycle events, and the navigation command.

use vstd::prelude::*;
use vstd::string::StringExecFns;

use crate::json::{dec_digits, json_string, u64_to_dec, json_string_of};
use crate::types::{FrameId, LoaderId};

verus! {

/// A frame as the browser reports it in navigation events and the frame
/// tree snapshot.
#[derive(Debug)]
pub struct Frame {
    /// Frame unique identifier.
    pub id: FrameId,
    /// Parent frame identifier, absent for the top frame.
    pub parent_id: Option<FrameId>,
    /// Identifier of the loader associated with this frame.
    pub loader_id: Option<LoaderId>,
    /// Frame document's URL without fragment.
    pub url: String,
    /// Frame document's URL fragment including the `#`.
    pub url_fragment: Option<String>,
    /// Frame's name as specified in the tag.
    pub name: Option<String>,
}

/// The frame tree snapshot `Page.getFrameTree` returns.
#[derive(Debug)]
pub struct FrameTree {
    /// The frame at this node.
    pub frame: Frame,
    /// Child frame trees.
    pub child_frames: Vec<FrameTree>,
}

/// Fired when a frame has been attached to its parent.
#[derive(Debug)]
pub struct EventFrameAttached {
    /// The attached frame.
    pub frame_id: FrameId,
    /// Its parent.
    pub parent_frame_id: FrameId,
}

/// Fired when a frame has been detached.
#[derive(Debug)]
pub struct EventFrameDetached {
    /// The detached frame.
    pub frame_id: FrameId,
}

/// Fired once navigation of the frame has completed; the frame is now
/// associated with the new loader.
#[derive(Debug)]
pub struct EventFrameNavigated {
    /// The new state of the frame.
    pub frame: Frame,
}

/// Fired when a same-document navigation happened: the frame's URL changed
/// without a new document load.
#[derive(Debug)]
pub struct EventNavigatedWithinDocument {
    /// The navigated frame.
    pub frame_id: FrameId,
    /// The frame's new URL.
    pub url: String,
}

/// A named navigation milestone for a frame, like `init`,
/// `DOMContentLoaded` or `load`.
#[derive(Debug)]
pub struct EventLifecycleEvent {
    /// The frame the milestone belongs to.
    pub frame_id: FrameId,
    /// The loader the milestone belongs to.
    pub loader_id: LoaderId,
    /// The milestone's name.
    pub name: String,
}

/// Fired when a frame has stopped loading.
#[derive(Debug)]
pub struct EventFrameStoppedLoading {
    /// The frame that stopped loading.
    pub frame_id: FrameId,
}

/// Fired when a frame has started loading.
#[derive(Debug)]
pub struct EventFrameStartedLoading {
    /// The frame that started loading.
    pub frame_id: FrameId,
}

/// The `Page.navigate` command.
#[derive(Debug)]
pub struct NavigateParams {
    /// URL to navigate the page to.
    pub url: String,
    /// Referrer URL.
    pub referrer: Option<String>,
    /// Frame to navigate.
    pub frame_id: Option<FrameId>,
}

/// The parameter text `Page.navigate` is sent with.
pub open spec fn spec_navigate_params(
    url: Seq<char>,
    referrer: Option<Seq<char>>,
    frame_id: Option<Seq<char>>,
) -> Seq<char> {
    "{\"url\":"@ + json_string(url) + (match referrer {
        Some(r) => ",\"referrer\":"@ + json_string(r),
        None => Seq::<char>::empty(),
    }) + (match frame_id {
        Some(f) => ",\"frameId\":"@ + json_string(f),
        None => Seq::<char>::empty(),
    }) + "}"@
}

impl NavigateParams {
    /// A navigation of the given frame to the given URL.
    pub fn new(url: String, frame_id: Option<FrameId>, referrer: Option<String>) -> (r:
        NavigateParams)
        ensures
            r.url == url,
            r.frame_id == frame_id,
            r.referrer == referrer,
    {
        NavigateParams { url, referrer, frame_id }
    }

    /// The method identifier of this command.
    pub fn identifier() -> (r: String)
        ensures
            r@ == "Page.navigate"@,
    {
        "Page.navigate".to_owned()
    }

    /// Writes the parameters as JSON text.
    pub fn to_json(&self) -> (r: String)
        ensures
            r@ == spec_navigate_params(
                self.url@,
                match self.referrer {
                    Some(ref s) => Some(s@),
                    None => None,
                },
                match self.frame_id {
                    Some(ref f) => Some(f.0@),
                    None => None,
                },
            ),
    {
        let mut out = String::new();
        out.append("{\"url\":");
        let u = json_string_of(self.url.as_str());
        out.append(u.as_str());
        match &self.referrer {
            Some(r) => {
                out.append(",\"referrer\":");
                let t = json_string_of(r.as_str());
                out.append(t.as_str());
            },
            None => {},
        }
        match &self.frame_id {
            Some(f) => {
                out.append(",\"frameId\":");
                let t = json_string_of(f.0.as_str());
                out.append(t.as_str());
            },
            None => {},
        }
        out.append("}");
        proof {
            assert(out@ =~= spec_navigate_params(
                self.url@,
                match self.referrer {
                    Some(ref s) => Some(s@),
                    None => None::<Seq<char>>,
                },
                match self.frame_id {
                    Some(ref f) => Some(f.0@),
                    None => None::<Seq<char>>,
                },
            ));
        }
        out
    }
}

/// The `Page.createIsolatedWorld` command.
#[derive(Debug)]
pub struct CreateIsolatedWorldParams {
    /// The frame in which the world should be created.
    pub frame_id: FrameId,
    /// An optional name which is reported in the execution context.
    pub world_name: String,
}

/// The parameter text `Page.createIsolatedWorld` is sent with.
pub open spec fn spec_isolated_world_params(frame_id: Seq<char>, world_name: Seq<char>) -> Seq<
    char,
> {
    "{\"frameId\":"@ + json_string(frame_id) + ",\"worldName\":"@ + json_string(world_name)
        + ",\"grantUniveralAccess\":true}"@
}

impl CreateIsolatedWorldParams {
    /// The method identifier of this command.
    pub fn identifier() -> (r: String)
        ensures
            r@ == "Page.createIsolatedWorld"@,
    {
        "Page.createIsolatedWorld".to_owned()
    }

    /// Writes the parameters as JSON text.
    pub fn to_json(&self) -> (r: String)
        ensures
            r@ == spec_isolated_world_params(self.frame_id.0@, self.world_name@),
    {
        let mut out = String::new();
        out.append("{\"frameId\":");
        let f = json_string_of(self.frame_id.0.as_str());
        out.append(f.as_str());
        out.append(",\"worldName\":");
        let w = json_string_of(self.world_name.as_str());
        out.append(w.as_str());
        out.append(",\"grantUniveralAccess\":true}");
        proof {
            assert(out@ =~= spec_isolated_world_params(self.frame_id.0@, self.world_name@));
        }
        out
    }
}

} // verus!
