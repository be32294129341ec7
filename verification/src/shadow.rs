//! The shadow service: auditing a worker agent's execution and rewinding
//! an agent with a corrective impulse. The model and the repository are
//! reached around these functions.
use crate::audit::{AuditReport, AuditVerdict};
use crate::checkpoint::{Checkpoint, Message, MessageRole, stamped_from, transcript};
use crate::agent::is_clock_reading;
use crate::clock::Id;
use crate::identity::{Identity, boot_prompt_of, tool_names};
use crate::text::{contains_seq, contains_text, join2, lowercase, spec_lowercase};
use vstd::prelude::*;

verus! {

/// The role of the kernel's auditor.
pub open spec fn auditor_role() -> Seq<char> {
    "Kernel Shadow Auditor"@
}

/// The system prompt of the kernel's auditor.
pub open spec fn auditor_prompt() -> Seq<char> {
    AUDITOR_PROMPT@
}

/// The instructions of the kernel's auditor.
pub const AUDITOR_PROMPT: &'static str = "You are the internal AetherOS Kernel Auditor. Your job is to verify the execution result of a worker agent. If the result contains errors (like compilation failures or logical flaws), you must fail the audit and provide a fix. Respond ONLY with a JSON object containing: 'verdict' (Pass/Fail), 'error_log' (string, empty if pass), and 'suggested_fix' (string, empty if pass).";

/// The identity of the kernel's auditor: no tools allowed.
pub fn auditor_identity() -> (id: Identity)
    ensures
        id.role_name@ == auditor_role(),
        id.system_prompt@ == auditor_prompt(),
        id.allowed_tools@.len() == 0,
{
    Identity::new(String::from_str("Kernel Shadow Auditor"), String::from_str(AUDITOR_PROMPT))
}

/// The model that performs audits.
pub fn audit_model() -> (m: &'static str)
    ensures
        m@ == "gpt-4o"@,
{
    "gpt-4o"
}

/// The user message that asks the auditor to verify a result.
pub open spec fn audit_request(execution_result: Seq<char>) -> Seq<char> {
    "Verify this execution result:\n"@ + execution_result
}

/// The conversation sent to the auditor: its boot prompt, then the result
/// to verify.
pub fn audit_prompt(execution_result: &str) -> (ms: Vec<Message>)
    ensures
        transcript(ms@) == seq![
            (
                MessageRole::System,
                boot_prompt_of(auditor_role(), auditor_prompt(), Seq::<Seq<char>>::empty()),
            ),
            (MessageRole::User, audit_request(execution_result@)),
        ],
        stamped_from(ms@, 0),
{
    let auditor = auditor_identity();
    assert(tool_names(auditor.allowed_tools@) =~= Seq::<Seq<char>>::empty());
    let system = auditor.boot_prompt();
    let user = join2("Verify this execution result:\n", execution_result);
    let mut ms: Vec<Message> = Vec::new();
    ms.push(Message::now(MessageRole::System, system));
    ms.push(Message::now(MessageRole::User, user));
    assert(transcript(ms@) =~= seq![
        (
            MessageRole::System,
            boot_prompt_of(auditor_role(), auditor_prompt(), Seq::<Seq<char>>::empty()),
        ),
        (MessageRole::User, audit_request(execution_result@)),
    ]);
    ms
}

/// The text whose presence in the lowercased answer passes an audit.
pub open spec fn pass_marker() -> Seq<char> {
    "\"verdict\": \"pass\""@
}

/// The log recorded when an audit fails.
pub open spec fn failure_log() -> Seq<char> {
    "Audit detected anomalies in the execution."@
}

/// The fix suggested when an audit fails.
pub open spec fn failure_fix() -> Seq<char> {
    "Review the system logs and correct the syntax/logic."@
}

/// Whether `v` is the verdict for an auditor's answer whose lowercase form
/// is `lowered`: a pass where it holds the pass marker, else a failure of
/// severity 3 with the standard log and fix.
pub open spec fn is_verdict_for(lowered: Seq<char>, v: AuditVerdict) -> bool {
    if contains_seq(lowered, pass_marker()) {
        v is Pass
    } else {
        v matches AuditVerdict::Fail { error_log, suggested_fix, severity } && error_log@
            == failure_log() && suggested_fix@ == failure_fix() && severity == 3
    }
}

/// The verdict for an auditor's answer, given the answer in lowercase.
pub fn verdict_from_lowercase(lowered: &str) -> (v: AuditVerdict)
    ensures
        is_verdict_for(lowered@, v),
{
    if contains_text(lowered, "\"verdict\": \"pass\"") {
        AuditVerdict::Pass
    } else {
        AuditVerdict::Fail {
            error_log: String::from_str("Audit detected anomalies in the execution."),
            suggested_fix: String::from_str("Review the system logs and correct the syntax/logic."),
            severity: 3,
        }
    }
}

/// The verdict for an auditor's answer: it passes where the answer, in
/// lowercase, holds `"verdict": "pass"`.
pub fn judge_answer(answer: &str) -> (v: AuditVerdict)
    ensures
        is_verdict_for(spec_lowercase(answer@), v),
{
    let lowered = lowercase(answer);
    verdict_from_lowercase(lowered.as_str())
}

/// The report of an audit of `worker_agent_id` at `checkpoint_id` from the
/// auditor's answer.
pub fn audit_report(worker_agent_id: Id, checkpoint_id: Id, answer: &str) -> (r: AuditReport)
    ensures
        r.worker_agent_id == worker_agent_id,
        r.checkpoint_id == checkpoint_id,
        is_verdict_for(spec_lowercase(answer@), r.verdict),
{
    AuditReport::new(worker_agent_id, checkpoint_id, judge_answer(answer))
}

/// The system message that carries a corrective instruction to an agent
/// being rewound.
pub open spec fn heal_impulse(fix_instruction: Seq<char>) -> Seq<char> {
    "[KERNEL DEEP-HEAL IMPULSE]\nYour last action was rejected by the Shadow Auditor. Correct your path using this instruction:\n"@
        + fix_instruction
}

/// Appends the corrective impulse to a checkpoint's conversation; nothing
/// else of the checkpoint changes.
pub fn inject_heal_impulse(checkpoint: &mut Checkpoint, fix_instruction: &str)
    ensures
        transcript(final(checkpoint).messages@) == transcript(old(checkpoint).messages@).push(
            (MessageRole::System, heal_impulse(fix_instruction@)),
        ),
        final(checkpoint).messages@.len() == old(checkpoint).messages@.len() + 1,
        final(checkpoint).messages@.drop_last() == old(checkpoint).messages@,
        is_clock_reading(final(checkpoint).messages@.last().timestamp),
        final(checkpoint).id == old(checkpoint).id,
        final(checkpoint).agent_id == old(checkpoint).agent_id,
        final(checkpoint).tools@ == old(checkpoint).tools@,
        final(checkpoint).created_at == old(checkpoint).created_at,
{
    let text = join2(
        "[KERNEL DEEP-HEAL IMPULSE]\nYour last action was rejected by the Shadow Auditor. Correct your path using this instruction:\n",
        fix_instruction,
    );
    let ghost before = transcript(checkpoint.messages@);
    let ghost before_messages = checkpoint.messages@;
    checkpoint.messages.push(Message::now(MessageRole::System, text));
    assert(checkpoint.messages@.drop_last() =~= before_messages);
    assert(transcript(checkpoint.messages@) =~= before.push(
        (MessageRole::System, heal_impulse(fix_instruction@)),
    ));
}

/// An audit passes exactly when the lowercased answer holds the pass
/// marker; any other answer fails it.
pub proof fn law_audit_passes_only_on_marker(lowered: Seq<char>, v: AuditVerdict)
    requires
        is_verdict_for(lowered, v),
    ensures
        (v is Pass) <==> contains_seq(lowered, pass_marker()),
{
}

/// A failed audit always carries the standard log, the standard fix and
/// severity 3.
pub proof fn law_failed_audit_details(lowered: Seq<char>, v: AuditVerdict)
    requires
        is_verdict_for(lowered, v),
        !contains_seq(lowered, pass_marker()),
    ensures
        v matches AuditVerdict::Fail { error_log, suggested_fix, severity } && error_log@
            == "Audit detected anomalies in the execution."@ && suggested_fix@
            == "Review the system logs and correct the syntax/logic."@ && severity == 3,
{
}

} // verus!
