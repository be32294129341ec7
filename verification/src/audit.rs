//! Shadow audits: the kernel's verdict on a worker agent's execution.
use crate::clock::Id;
use vstd::prelude::*;

verus! {

/// The outcome of an audit.
#[derive(Debug)]
pub enum AuditVerdict {
    /// The execution is accepted.
    Pass,
    /// The execution is rejected, with what was found and how to fix it.
    Fail { error_log: String, suggested_fix: String, severity: u8 },
}

/// The report of one audit of a worker agent's execution.
#[derive(Debug)]
pub struct AuditReport {
    pub worker_agent_id: Id,
    pub checkpoint_id: Id,
    pub verdict: AuditVerdict,
}

impl AuditReport {
    /// The report of an audit of `worker_agent_id` at `checkpoint_id`.
    pub fn new(worker_agent_id: Id, checkpoint_id: Id, verdict: AuditVerdict) -> (r: AuditReport)
        ensures
            r.worker_agent_id == worker_agent_id,
            r.checkpoint_id == checkpoint_id,
            r.verdict == verdict,
    {
        AuditReport { worker_agent_id, checkpoint_id, verdict }
    }

    /// Whether the audit passed.
    pub fn is_success(&self) -> (r: bool)
        ensures
            r == (self.verdict is Pass),
    {
        match self.verdict {
            AuditVerdict::Pass => true,
            AuditVerdict::Fail { .. } => false,
        }
    }
}

} // verus!
