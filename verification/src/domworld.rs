//! The two JavaScript worlds tracked for each frame: the frame's default
//! execution context and an isolated world with universal access.

use vstd::prelude::*;

use crate::cdp::runtime::ExecutionContextId;

verus! {

/// A context for JavaScript execution inside one frame.
#[derive(Debug, Clone, Copy, PartialEq, Eq, Structural)]
pub struct DOMWorld {
    /// The world's current execution context, once created.
    pub execution_ctx: Option<ExecutionContextId>,
    /// Whether the world was detached from its frame.
    pub detached: bool,
}

impl DOMWorld {
    /// The main world of a frame: its default execution context.
    pub fn main_world() -> (r: DOMWorld)
        ensures
            r.execution_ctx is None,
            !r.detached,
    {
        DOMWorld { execution_ctx: None, detached: false }
    }

    /// A frame's isolated world with universal access.
    pub fn secondary_world() -> (r: DOMWorld)
        ensures
            r.execution_ctx is None,
            !r.detached,
    {
        DOMWorld { execution_ctx: None, detached: false }
    }

    /// The world's current execution context.
    pub fn execution_context(&self) -> (r: Option<ExecutionContextId>)
        ensures
            r == self.execution_ctx,
    {
        self.execution_ctx
    }

    /// Sets the world's execution context.
    pub fn set_context(&mut self, ctx: ExecutionContextId)
        ensures
            final(self).execution_ctx == Some(ctx),
            final(self).detached == old(self).detached,
    {
        self.execution_ctx = Some(ctx);
    }

    /// Takes the world's execution context, leaving none.
    pub fn take_context(&mut self) -> (r: Option<ExecutionContextId>)
        ensures
            r == old(self).execution_ctx,
            final(self).execution_ctx is None,
            final(self).detached == old(self).detached,
    {
        let r = self.execution_ctx;
        self.execution_ctx = None;
        r
    }

    /// Whether the world was detached.
    pub fn is_detached(&self) -> (r: bool)
        ensures
            r == self.detached,
    {
        self.detached
    }
}

/// Which of a frame's two worlds is meant.
#[derive(Debug, Clone, Copy, PartialEq, Eq, Structural)]
pub enum DOMWorldKind {
    /// The main world: the frame's default execution context.
    Main,
    /// The frame's isolated world with universal access.
    Secondary,
}

} // verus!
