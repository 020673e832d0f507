//! An attached conversation with one target, identified by a session id.

use vstd::prelude::*;

use crate::types::{SessionId, TargetId};

verus! {

/// A session: a 1:1 mapping from a session id to the target it is attached
/// to.
#[derive(Debug)]
pub struct Session {
    /// Identifier for this session.
    pub id: SessionId,
    /// The kind of the target this session is attached to, like `page`.
    pub target_type: String,
    /// The identifier of the target this session is attached to.
    pub target_id: TargetId,
}

impl Session {
    /// A session record.
    pub fn new(id: SessionId, target_type: String, target_id: TargetId) -> (r: Session)
        ensures
            r.id == id,
            r.target_type == target_type,
            r.target_id == target_id,
    {
        Session { id, target_type, target_id }
    }

    /// Identifier for this session.
    pub fn session_id(&self) -> (r: &SessionId)
        ensures
            *r == self.id,
    {
        &self.id
    }

    /// The identifier of the target this session is attached to.
    pub fn target_id(&self) -> (r: &TargetId)
        ensures
            *r == self.target_id,
    {
        &self.target_id
    }
}

} // verus!
