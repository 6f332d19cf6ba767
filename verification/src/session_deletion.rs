//! What a client learns of the deletion of a session.
//!
//! A client confirms an identity and a revision. What would be deleted stays with the
//! owner of the sessions: a client sees counts, and never a list.
use vstd::prelude::*;

use crate::identity::SessionId;

verus! {

/// What a client is asked to confirm. The counts cover everything that the session owns.
#[derive(Debug, Clone, PartialEq, Eq)]
pub struct RuntimeClientSessionDeletePreview {
    pub session_id: SessionId,
    /// The name, cut to at most 256 Unicode scalar values.
    pub name: Option<String>,
    pub target_revision: String,
    pub owned_node_count: u64,
    pub owned_conversation_count: u64,
    pub owned_child_count: u64,
}

/// Why a session cannot be deleted now.
#[derive(Debug, Clone, PartialEq, Eq)]
pub enum RuntimeClientSessionDeletionBlocker {
    ResourceConflict,
    Workspace { resource_count: u64 },
    InvalidOwnership,
}

/// What became of a deletion.
#[derive(Debug, Clone, PartialEq, Eq)]
pub enum RuntimeClientSessionDeletionResult {
    Preview { preview: RuntimeClientSessionDeletePreview },
    Deleted { session_id: SessionId },
    /// The session has changed since it was confirmed. Only a fresh preview helps.
    Stale { session_id: SessionId },
    Blocked { session_id: SessionId, reason: RuntimeClientSessionDeletionBlocker },
    CommittedCleanupPending { session_id: SessionId },
    CommittedDurabilityUncertain { session_id: SessionId },
    NotFound { session_id: SessionId },
}

} // verus!
