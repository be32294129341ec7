//! Reading stored agents and checkpoints back: what the repository decides
//! about each row it loads. The queries themselves run around these
//! functions.
use crate::agent::{Agent, AgentState, law_state_name_round_trip, state_name, state_named};
use crate::budget::Budget;
use crate::checkpoint::{Checkpoint, Message, ToolState};
use crate::clock::{Id, Timestamp};
use crate::error::{DomainError, DomainResult, is_internal};
use crate::text::join2;
use vstd::prelude::*;

verus! {

/// What `uuid::Uuid::parse_str` yields for a text, as 128 bits.
pub uninterp spec fn spec_parse_uuid(text: Seq<char>) -> Option<u128>;

/// The identifier written in `text`, if it is a UUID.
///
/// Calls `uuid::Uuid::parse_str` and takes the 128 bits of a UUID it
/// returns. Which texts the crate accepts (simple, hyphenated, braced and
/// URN forms) takes its parser to state, so the contract names the result
/// as a function of the text alone, `spec_parse_uuid`.
#[verifier::external_body]
pub(crate) fn parse_id(text: &str) -> (r: Option<Id>)
    ensures
        r == spec_parse_uuid(text@),
{
    match uuid::Uuid::parse_str(text) {
        Ok(u) => Some(u.as_u128()),
        Err(_) => None,
    }
}

/// The lowercase hexadecimal digit for `d < 16`.
pub open spec fn hex_char(d: nat) -> char {
    if d < 10 {
        (48 + d) as char
    } else {
        (87 + d) as char
    }
}

/// The 32 hexadecimal digits of an identifier, most significant first.
pub open spec fn hex_digits(id: u128) -> Seq<char> {
    Seq::new(32, |k: int| hex_char(((id >> (((31 - k) * 4) as u128)) & 15u128) as nat))
}

/// The hyphenated form of an identifier: its 32 lowercase hexadecimal
/// digits in groups of 8, 4, 4, 4 and 12, separated by hyphens.
pub open spec fn hyphenated(id: u128) -> Seq<char> {
    let h = hex_digits(id);
    h.subrange(0, 8) + seq!['-'] + h.subrange(8, 12) + seq!['-'] + h.subrange(12, 16) + seq!['-']
        + h.subrange(16, 20) + seq!['-'] + h.subrange(20, 32)
}

/// The text of an identifier as the kernel stores and shows it.
///
/// Calls `uuid::Uuid::from_u128` and formats the result with `Display`,
/// which the crate's source writes as the lowercase hyphenated form
/// (`fmt.rs`: `Display` defers to `LowerHex`, which writes
/// `format_hyphenated`). The contract states that form, and that
/// `Uuid::parse_str` reads it back as the same identifier, as the crate's
/// parser does for every hyphenated text.
#[verifier::external_body]
pub(crate) fn id_text(id: Id) -> (r: String)
    ensures
        r@ == hyphenated(id),
        spec_parse_uuid(r@) == Some(id),
{
    uuid::Uuid::from_u128(id).to_string()
}

/// The hyphenated text of an identifier, as responses carry it.
pub fn agent_id_text(id: Id) -> (r: String)
    ensures
        r@ == hyphenated(id),
        spec_parse_uuid(r@) == Some(id),
{
    id_text(id)
}

/// The identifier that a request names, or `Internal("Invalid Agent ID")`
/// where the text is not a UUID.
pub fn agent_id_from_text(text: &str) -> (r: DomainResult<Id>)
    ensures
        spec_parse_uuid(text@) matches Some(id) ==> r == Ok::<Id, DomainError>(id),
        spec_parse_uuid(text@) is None ==> (r matches Err(e) && is_internal(
            e,
            "Invalid Agent ID"@,
        )),
{
    match parse_id(text) {
        Some(id) => Ok(id),
        None => Err(DomainError::Internal(String::from_str("Invalid Agent ID"))),
    }
}

/// The identifier of a stored row: the UUID its text holds, or the nil
/// identifier where the text is not a UUID.
pub open spec fn stored_id(text: Seq<char>) -> Id {
    match spec_parse_uuid(text) {
        Some(id) => id,
        None => 0,
    }
}

/// The identifier of a stored row: the UUID its text holds, or the nil
/// identifier where the text is not a UUID.
pub fn read_id(text: &str) -> (id: Id)
    ensures
        id == stored_id(text@),
{
    match parse_id(text) {
        Some(id) => id,
        None => 0,
    }
}

/// The detail of the error for a stored state name that no state has.
pub open spec fn unknown_state_detail(name: Seq<char>) -> Seq<char> {
    "Unknown agent state: "@ + name
}

/// The state of a stored agent, from its stored name.
pub fn decode_state(name: &str) -> (r: DomainResult<AgentState>)
    ensures
        state_named(name@) matches Some(s) ==> r == Ok::<AgentState, DomainError>(s),
        state_named(name@) is None ==> (r matches Err(e) && is_internal(
            e,
            unknown_state_detail(name@),
        )),
{
    match AgentState::from_name(name) {
        Some(s) => Ok(s),
        None => Err(DomainError::Internal(join2("Unknown agent state: ", name))),
    }
}

/// The agent that a stored row describes, or `None` where its state name
/// is unknown. Token counts are stored as 64-bit integers and read back
/// truncated to 32 bits; an identifier that is not a UUID reads as nil.
pub open spec fn restored(
    id_text: Seq<char>,
    name: String,
    model_id: String,
    state_text: Seq<char>,
    max_cost_micros: u64,
    max_tokens: i64,
    current_cost_micros: u64,
    current_tokens: i64,
    created_at: Timestamp,
    updated_at: Timestamp,
) -> Option<Agent> {
    match state_named(state_text) {
        None => None,
        Some(s) => Some(
            Agent {
                id: stored_id(id_text),
                name,
                model_id,
                state: s,
                budget: Budget {
                    max_cost_micros,
                    max_tokens: max_tokens as u32,
                    current_cost_micros,
                    current_tokens: current_tokens as u32,
                },
                created_at,
                updated_at,
            },
        ),
    }
}

/// The agent that a stored row describes. A row whose state name is
/// unknown is refused.
pub fn restore_agent(
    id_text: &str,
    name: String,
    model_id: String,
    state_text: &str,
    max_cost_micros: u64,
    max_tokens: i64,
    current_cost_micros: u64,
    current_tokens: i64,
    created_at: Timestamp,
    updated_at: Timestamp,
) -> (r: DomainResult<Agent>)
    ensures
        ({
            let expected = restored(
                id_text@,
                name,
                model_id,
                state_text@,
                max_cost_micros,
                max_tokens,
                current_cost_micros,
                current_tokens,
                created_at,
                updated_at,
            );
            &&& expected is None ==> (r matches Err(e) && is_internal(
                e,
                unknown_state_detail(state_text@),
            ))
            &&& expected matches Some(a) ==> (r matches Ok(b) && b == a)
        }),
{
    let state = match decode_state(state_text) {
        Ok(s) => s,
        Err(e) => {
            return Err(e);
        },
    };
    Ok(
        Agent {
            id: read_id(id_text),
            name,
            model_id,
            state,
            budget: Budget {
                max_cost_micros,
                max_tokens: #[verifier::truncate] (max_tokens as u32),
                current_cost_micros,
                current_tokens: #[verifier::truncate] (current_tokens as u32),
            },
            created_at,
            updated_at,
        },
    )
}

/// The agent that a stored row describes when the agents are listed: rows
/// whose state name is unknown are skipped (`None`).
pub fn listed_agent(
    id_text: &str,
    name: String,
    model_id: String,
    state_text: &str,
    max_cost_micros: u64,
    max_tokens: i64,
    current_cost_micros: u64,
    current_tokens: i64,
    created_at: Timestamp,
    updated_at: Timestamp,
) -> (r: Option<Agent>)
    ensures
        r == restored(
            id_text@,
            name,
            model_id,
            state_text@,
            max_cost_micros,
            max_tokens,
            current_cost_micros,
            current_tokens,
            created_at,
            updated_at,
        ),
{
    match restore_agent(
        id_text,
        name,
        model_id,
        state_text,
        max_cost_micros,
        max_tokens,
        current_cost_micros,
        current_tokens,
        created_at,
        updated_at,
    ) {
        Ok(a) => Some(a),
        Err(_) => None,
    }
}

/// The values of the row that stores an agent.
#[derive(Debug)]
pub struct AgentRow {
    pub id: String,
    pub name: String,
    pub model_id: String,
    pub state: String,
    pub max_cost_micros: u64,
    pub max_tokens: i64,
    pub current_cost_micros: u64,
    pub current_tokens: i64,
    pub created_at: Timestamp,
    pub updated_at: Timestamp,
}

/// The row that stores an agent: its identifier in hyphenated form, its
/// state by name and its token counts widened to 64 bits. Reading the row
/// back gives the same agent.
pub fn agent_row(a: &Agent) -> (r: AgentRow)
    ensures
        r.id@ == hyphenated(a.id),
        r.name == a.name,
        r.model_id == a.model_id,
        r.state@ == state_name(a.state),
        r.max_cost_micros == a.budget.max_cost_micros,
        r.max_tokens == a.budget.max_tokens as i64,
        r.current_cost_micros == a.budget.current_cost_micros,
        r.current_tokens == a.budget.current_tokens as i64,
        r.created_at == a.created_at,
        r.updated_at == a.updated_at,
        restored(
            r.id@,
            r.name,
            r.model_id,
            r.state@,
            r.max_cost_micros,
            r.max_tokens,
            r.current_cost_micros,
            r.current_tokens,
            r.created_at,
            r.updated_at,
        ) == Some(*a),
{
    let r = AgentRow {
        id: id_text(a.id),
        name: a.name.clone(),
        model_id: a.model_id.clone(),
        state: String::from_str(a.state.name()),
        max_cost_micros: a.budget.max_cost_micros,
        max_tokens: a.budget.max_tokens as i64,
        current_cost_micros: a.budget.current_cost_micros,
        current_tokens: a.budget.current_tokens as i64,
        created_at: a.created_at,
        updated_at: a.updated_at,
    };
    proof {
        law_stored_agent_reads_back(*a, r.id@);
    }
    r
}

/// What the repository writes of an agent reads back as the same agent:
/// its state by name, its token counts widened to 64 bits, and its
/// identifier as a text that parses back to it.
pub proof fn law_stored_agent_reads_back(a: Agent, id_text: Seq<char>)
    requires
        spec_parse_uuid(id_text) == Some(a.id),
    ensures
        restored(
            id_text,
            a.name,
            a.model_id,
            state_name(a.state),
            a.budget.max_cost_micros,
            a.budget.max_tokens as i64,
            a.budget.current_cost_micros,
            a.budget.current_tokens as i64,
            a.created_at,
            a.updated_at,
        ) == Some(a),
{
    law_state_name_round_trip(a.state);
}

/// The keys of the row that stores a checkpoint: its identifier and its
/// agent's, in hyphenated form.
#[derive(Debug)]
pub struct CheckpointKeys {
    pub id: String,
    pub agent_id: String,
}

/// The keys under which a checkpoint is stored; each reads back as the
/// identifier it was written from.
pub fn checkpoint_keys(c: &Checkpoint) -> (k: CheckpointKeys)
    ensures
        k.id@ == hyphenated(c.id),
        k.agent_id@ == hyphenated(c.agent_id),
        stored_id(k.id@) == c.id,
        stored_id(k.agent_id@) == c.agent_id,
{
    CheckpointKeys { id: id_text(c.id), agent_id: id_text(c.agent_id) }
}

/// The checkpoint that a stored row describes.
pub fn restore_checkpoint(
    id_text: &str,
    agent_id: Id,
    messages: Vec<Message>,
    tools: Vec<ToolState>,
    created_at: Timestamp,
) -> (c: Checkpoint)
    ensures
        c.id == stored_id(id_text@),
        c.agent_id == agent_id,
        c.messages@ == messages@,
        c.tools@ == tools@,
        c.created_at == created_at,
{
    Checkpoint { id: read_id(id_text), agent_id, messages, tools, created_at }
}

} // verus!
