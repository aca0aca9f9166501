use vstd::prelude::*;

verus! {

/// What identifies a session to its collaborators. It holds no system
/// resources and does not change once the session exists.
#[derive(Debug)]
pub struct PtyMetadata {
    /// The session's id, as the 128-bit value of its UUID.
    pub pid: u128,
    /// The id of the workflow that owns the session, as a 128-bit UUID value.
    pub runbook: u128,
    /// The id of the block the session belongs to.
    pub block: String,
    /// When the session was created.
    pub created_at: u64,
}

impl PtyMetadata {
    /// Whether two records name the same session.
    pub open spec fn same_as(&self, other: &PtyMetadata) -> bool {
        &&& self.pid == other.pid
        &&& self.runbook == other.runbook
        &&& self.block@ == other.block@
        &&& self.created_at == other.created_at
    }

    /// A copy of the record.
    pub fn duplicate(&self) -> (r: PtyMetadata)
        ensures
            r.same_as(self),
    {
        PtyMetadata {
            pid: self.pid,
            runbook: self.runbook,
            block: self.block.clone(),
            created_at: self.created_at,
        }
    }
}

impl Clone for PtyMetadata {
    fn clone(&self) -> (r: PtyMetadata)
        ensures
            r.same_as(self),
    {
        self.duplicate()
    }
}

} // verus!
