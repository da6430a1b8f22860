//! Node-related entity definitions.
use vstd::prelude::*;

verus! {

/// Identifier of a node, unique within its hosting process.
pub type LocalNodeId = String;

/// Identifies a node of a replicated group living in a remote process:
/// the transport address of that process plus the node's process-local id.
///
/// The address is carried as its textual form; only the transport
/// interprets it.
#[derive(Debug)]
pub struct RemoteNodeId {
    /// Textual transport address of the hosting process.
    pub addr: String,

    /// Process-local id of the node.
    pub local_id: LocalNodeId,
}

impl Clone for RemoteNodeId {
    /// Cloning keeps both the address and the node id, character for
    /// character.
    fn clone(&self) -> (r: Self)
        ensures
            r.addr@ == self.addr@,
            r.local_id@ == self.local_id@,
    {
        RemoteNodeId { addr: self.addr.clone(), local_id: self.local_id.clone() }
    }
}

} // verus!
