//! Types of the Network and Fetch protocol domains used by the network
//! manager: the enable commands and the request-lifecycle events it
//! observes.

use vstd::prelude::*;
use vstd::string::StringExecFns;

verus! {

/// The `Network.enable` command (no parameters used here).
#[derive(Debug)]
pub struct EnableParams {}

impl EnableParams {
    /// The method identifier of this command.
    pub fn identifier() -> (r: String)
        ensures
            r@ == "Network.enable"@,
    {
        "Network.enable".to_owned()
    }
}

/// The `Security.setIgnoreCertificateErrors` command.
#[derive(Debug)]
pub struct SetIgnoreCertificateErrorsParams {
    /// Whether to ignore certificate errors.
    pub ignore: bool,
}

impl SetIgnoreCertificateErrorsParams {
    /// The method identifier of this command.
    pub fn identifier() -> (r: String)
        ensures
            r@ == "Security.setIgnoreCertificateErrors"@,
    {
        "Security.setIgnoreCertificateErrors".to_owned()
    }

    /// Writes the parameters as JSON text.
    pub fn to_json(&self) -> (r: String)
        ensures
            self.ignore ==> r@ == "{\"ignore\":true}"@,
            !self.ignore ==> r@ == "{\"ignore\":false}"@,
    {
        if self.ignore {
            "{\"ignore\":true}".to_owned()
        } else {
            "{\"ignore\":false}".to_owned()
        }
    }
}

/// Fired by the Fetch domain when a request is paused for interception.
#[derive(Debug)]
pub struct EventRequestPaused {
    /// The intercepted request.
    pub request_id: String,
}

/// Fired by the Fetch domain when a request needs authentication.
#[derive(Debug)]
pub struct EventAuthRequired {
    /// The intercepted request.
    pub request_id: String,
}

/// Fired when the page is about to send an HTTP request.
#[derive(Debug)]
pub struct EventRequestWillBeSent {
    /// The request.
    pub request_id: String,
}

/// Fired when a request was served from the cache.
#[derive(Debug)]
pub struct EventRequestServedFromCache {
    /// The request.
    pub request_id: String,
}

/// Fired when an HTTP response becomes available.
#[derive(Debug)]
pub struct EventResponseReceived {
    /// The request.
    pub request_id: String,
}

/// Fired when an HTTP request has finished loading.
#[derive(Debug)]
pub struct EventLoadingFinished {
    /// The request.
    pub request_id: String,
}

/// Fired when an HTTP request has failed to load.
#[derive(Debug)]
pub struct EventLoadingFailed {
    /// The request.
    pub request_id: String,
}

} // verus!
