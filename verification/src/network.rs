//! The network manager: produces the enable sequence for its domain and
//! receives the request-lifecycle events the target routes to it.

use vstd::prelude::*;
use vstd::string::StringExecFns;

use crate::cdp::network::{
    EventAuthRequired, EventLoadingFailed, EventLoadingFinished, EventRequestPaused,
    EventRequestServedFromCache, EventRequestWillBeSent, EventResponseReceived,
};
use crate::cmd::CommandChain;

verus! {

/// An event the network manager reports to its target; none are produced in
/// this design.
#[derive(Debug)]
pub enum NetworkEvent {
    /// No event; the variant exists so the type is inhabited.
    Idle,
}

/// Tracks the network configuration of one target and produces its
/// domain-enable commands.
#[derive(Debug)]
pub struct NetworkManager {
    /// Whether certificate errors are suppressed for this target.
    pub ignore_httpserrors: bool,
    /// Extra headers configured for outgoing requests.
    pub extra_headers: Vec<(String, String)>,
    /// Whether the cache was disabled by the user.
    pub user_cache_disabled: bool,
    /// Whether request interception was enabled by the user.
    pub user_request_interception_enabled: bool,
    /// Whether the target emulates being offline.
    pub offline: bool,
}

impl NetworkManager {
    /// A manager with the given certificate-error policy and everything
    /// else off.
    pub fn new(ignore_httpserrors: bool) -> (r: NetworkManager)
        ensures
            r.ignore_httpserrors == ignore_httpserrors,
            r.extra_headers@.len() == 0,
            !r.user_cache_disabled,
            !r.user_request_interception_enabled,
            !r.offline,
    {
        NetworkManager {
            ignore_httpserrors,
            extra_headers: Vec::new(),
            user_cache_disabled: false,
            user_request_interception_enabled: false,
            offline: false,
        }
    }

    /// The commands that initialize the network domain: enable it, and
    /// suppress certificate errors when so configured.
    pub fn init_commands(&self) -> (r: CommandChain)
        ensures
            r.wf(),
            r.waiting is None,
            r.timeout == crate::cmd::REQUEST_TIMEOUT,
            r.pending()[0].0@ == "Network.enable"@ && r.pending()[0].1@ == "{}"@,
            self.ignore_httpserrors ==> r.pending().len() == 2 && r.pending()[1].0@
                == "Security.setIgnoreCertificateErrors"@ && r.pending()[1].1@
                == "{\"ignore\":true}"@,
            !self.ignore_httpserrors ==> r.pending().len() == 1,
    {
        let mut cmds: Vec<(String, String)> = Vec::new();
        cmds.push((crate::cdp::network::EnableParams::identifier(), "{}".to_owned()));
        if self.ignore_httpserrors {
            let ignore = crate::cdp::network::SetIgnoreCertificateErrorsParams { ignore: true };
            cmds.push(
                (crate::cdp::network::SetIgnoreCertificateErrorsParams::identifier(),
                ignore.to_json()),
            );
        }
        CommandChain::new(cmds)
    }

    /// Reports the manager's next event; this design produces none.
    pub fn poll(&mut self, now: u64) -> (r: Option<NetworkEvent>)
        ensures
            r is None,
            *final(self) == *old(self),
    {
        None
    }

    /// A request was paused for interception; nothing is tracked for it.
    pub fn on_fetch_request_paused(&mut self, ev: &EventRequestPaused)
        ensures
            *final(self) == *old(self),
    {
    }

    /// A request needs authentication; nothing is tracked for it.
    pub fn on_fetch_auth_required(&mut self, ev: &EventAuthRequired)
        ensures
            *final(self) == *old(self),
    {
    }

    /// A request is about to be sent; nothing is tracked for it.
    pub fn on_request_will_be_sent(&mut self, ev: &EventRequestWillBeSent)
        ensures
            *final(self) == *old(self),
    {
    }

    /// A request was served from the cache; nothing is tracked for it.
    pub fn on_request_served_from_cache(&mut self, ev: &EventRequestServedFromCache)
        ensures
            *final(self) == *old(self),
    {
    }

    /// A response arrived; nothing is tracked for it.
    pub fn on_response_received(&mut self, ev: &EventResponseReceived)
        ensures
            *final(self) == *old(self),
    {
    }

    /// A request finished loading; nothing is tracked for it.
    pub fn on_network_loading_finished(&mut self, ev: &EventLoadingFinished)
        ensures
            *final(self) == *old(self),
    {
    }

    /// A request failed to load; nothing is tracked for it.
    pub fn on_network_loading_failed(&mut self, ev: &EventLoadingFailed)
        ensures
            *final(self) == *old(self),
    {
    }
}

} // verus!
