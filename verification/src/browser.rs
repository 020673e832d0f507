//! The browser context a target runs in.

use vstd::prelude::*;

use crate::types::BrowserContextId;

verus! {

/// A browser context: an independent session within one browser instance.
#[derive(Debug)]
pub struct BrowserContext {
    /// The context's identifier, absent for the default context.
    pub id: Option<BrowserContextId>,
}

impl BrowserContext {
    /// The default context.
    pub fn new() -> (r: BrowserContext)
        ensures
            r.id is None,
    {
        BrowserContext { id: None }
    }
}

} // verus!
