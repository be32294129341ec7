//! The agent aggregate: an autonomous agent process and its lifecycle.
use crate::budget::{Budget, fresh_budget};
use crate::clock::{Id, Timestamp, new_id, now, uuid_layout_mask, uuid_v4_layout};
use crate::error::{DomainError, DomainResult, is_invalid_transition};
use crate::text::same_text;
use vstd::prelude::*;

verus! {

/// The states of an agent process.
#[derive(Clone, Copy, Debug, PartialEq, Eq, Structural)]
pub enum AgentState {
    Pending,
    Running,
    Suspended,
    Terminated,
    Error,
}

/// The name of a state, as the kernel writes it to storage and into
/// messages.
pub open spec fn state_name(s: AgentState) -> Seq<char> {
    match s {
        AgentState::Pending => "Pending"@,
        AgentState::Running => "Running"@,
        AgentState::Suspended => "Suspended"@,
        AgentState::Terminated => "Terminated"@,
        AgentState::Error => "Error"@,
    }
}

/// The state that a name denotes, if any.
pub open spec fn state_named(n: Seq<char>) -> Option<AgentState> {
    if n == "Pending"@ {
        Some(AgentState::Pending)
    } else if n == "Running"@ {
        Some(AgentState::Running)
    } else if n == "Suspended"@ {
        Some(AgentState::Suspended)
    } else if n == "Terminated"@ {
        Some(AgentState::Terminated)
    } else if n == "Error"@ {
        Some(AgentState::Error)
    } else {
        None
    }
}

impl AgentState {
    /// The state's name (`Pending`, `Running`, ...).
    pub fn name(&self) -> (r: &'static str)
        ensures
            r@ == state_name(*self),
    {
        match self {
            AgentState::Pending => "Pending",
            AgentState::Running => "Running",
            AgentState::Suspended => "Suspended",
            AgentState::Terminated => "Terminated",
            AgentState::Error => "Error",
        }
    }

    /// The state with the given name; `None` for any other text.
    pub fn from_name(n: &str) -> (r: Option<AgentState>)
        ensures
            r == state_named(n@),
    {
        if same_text(n, "Pending") {
            Some(AgentState::Pending)
        } else if same_text(n, "Running") {
            Some(AgentState::Running)
        } else if same_text(n, "Suspended") {
            Some(AgentState::Suspended)
        } else if same_text(n, "Terminated") {
            Some(AgentState::Terminated)
        } else if same_text(n, "Error") {
            Some(AgentState::Error)
        } else {
            None
        }
    }
}

/// Reading a stored state name gives back the state that was written.
pub proof fn law_state_name_round_trip(s: AgentState)
    ensures
        state_named(state_name(s)) == Some(s),
{
    reveal_strlit("Pending");
    reveal_strlit("Running");
    reveal_strlit("Suspended");
    reveal_strlit("Terminated");
    reveal_strlit("Error");
    // The names differ in their first character.
    assert("Running"@[0] != "Pending"@[0]);
    assert("Suspended"@[0] != "Pending"@[0]);
    assert("Suspended"@[0] != "Running"@[0]);
    assert("Terminated"@[0] != "Pending"@[0]);
    assert("Terminated"@[0] != "Running"@[0]);
    assert("Terminated"@[0] != "Suspended"@[0]);
    assert("Error"@[0] != "Pending"@[0]);
    assert("Error"@[0] != "Running"@[0]);
    assert("Error"@[0] != "Suspended"@[0]);
    assert("Error"@[0] != "Terminated"@[0]);
}

/// The state that `start` moves an agent to, or `None` where starting is
/// refused: pending and suspended agents start; others do not.
pub open spec fn start_target(s: AgentState) -> Option<AgentState> {
    match s {
        AgentState::Pending | AgentState::Suspended => Some(AgentState::Running),
        _ => None,
    }
}

/// The state that `pause` moves an agent to, or `None` where pausing is
/// refused: only running agents pause.
pub open spec fn pause_target(s: AgentState) -> Option<AgentState> {
    if s == AgentState::Running {
        Some(AgentState::Suspended)
    } else {
        None
    }
}

/// The detail of the error for a refused start.
pub open spec fn start_refusal(s: AgentState) -> Seq<char> {
    "Cannot start agent from "@ + state_name(s) + " state"@
}

/// The detail of the error for a refused pause.
pub open spec fn pause_refusal(s: AgentState) -> Seq<char> {
    "Only running agents can be paused (current: "@ + state_name(s) + ")"@
}

/// The core entity: an autonomous agent process.
#[derive(Debug)]
pub struct Agent {
    /// Unique identifier of the agent process.
    pub id: Id,
    /// Human-readable name.
    pub name: String,
    /// The model the agent is configured to use.
    pub model_id: String,
    /// The current state of the process.
    pub state: AgentState,
    /// Limits and usage of tokens and cost.
    pub budget: Budget,
    /// When the agent was spawned.
    pub created_at: Timestamp,
    /// When the agent's state last changed.
    pub updated_at: Timestamp,
}

/// `a` in state `s`, changed at `t`, with everything else as it was.
pub open spec fn with_state(a: Agent, s: AgentState, t: Timestamp) -> Agent {
    Agent { state: s, updated_at: t, ..a }
}

/// A reading of the clock: not before the epoch, nanoseconds within the
/// second.
pub open spec fn is_clock_reading(t: Timestamp) -> bool {
    t.seconds >= 0 && t.nanos < 1_000_000_000
}

impl Agent {
    /// Spawns a new pending agent with a fresh identifier and budget.
    pub fn new(name: String, model_id: String, max_cost_micros: u64, max_tokens: u32) -> (a: Agent)
        ensures
            a.id & uuid_layout_mask() == uuid_v4_layout(),
            a.name == name,
            a.model_id == model_id,
            a.state == AgentState::Pending,
            a.budget == fresh_budget(max_cost_micros, max_tokens),
            a.created_at == a.updated_at,
            is_clock_reading(a.created_at),
    {
        let t = now();
        Agent {
            id: new_id(),
            name,
            model_id,
            state: AgentState::Pending,
            budget: Budget::new(max_cost_micros, max_tokens),
            created_at: t,
            updated_at: t,
        }
    }

    /// Moves the agent to `Running`: from `Pending` (first start) or from
    /// `Suspended` (resume). From any other state the agent is left as it
    /// was and the error names the state it is in.
    pub fn start(&mut self) -> (r: DomainResult<()>)
        ensures
            r is Ok <==> start_target(old(self).state) is Some,
            r is Ok ==> *final(self) == with_state(
                *old(self),
                AgentState::Running,
                final(self).updated_at,
            ) && is_clock_reading(final(self).updated_at),
            r matches Err(e) ==> *final(self) == *old(self) && is_invalid_transition(
                e,
                old(self).id,
                start_refusal(old(self).state),
            ),
    {
        match self.state {
            AgentState::Pending | AgentState::Suspended => {
                self.transition_to(AgentState::Running);
                Ok(())
            },
            _ => {
                let mut detail = String::from_str("Cannot start agent from ");
                detail.append(self.state.name());
                detail.append(" state");
                Err(DomainError::InvalidStateTransition(self.id, detail))
            },
        }
    }

    /// Moves a running agent to `Suspended`. From any other state the agent
    /// is left as it was and the error names the state it is in.
    pub fn pause(&mut self) -> (r: DomainResult<()>)
        ensures
            r is Ok <==> pause_target(old(self).state) is Some,
            r is Ok ==> *final(self) == with_state(
                *old(self),
                AgentState::Suspended,
                final(self).updated_at,
            ) && is_clock_reading(final(self).updated_at),
            r matches Err(e) ==> *final(self) == *old(self) && is_invalid_transition(
                e,
                old(self).id,
                pause_refusal(old(self).state),
            ),
    {
        if self.state == AgentState::Running {
            self.transition_to(AgentState::Suspended);
            Ok(())
        } else {
            let mut detail = String::from_str("Only running agents can be paused (current: ");
            detail.append(self.state.name());
            detail.append(")");
            Err(DomainError::InvalidStateTransition(self.id, detail))
        }
    }

    /// Terminates the agent, whatever state it is in.
    pub fn stop(&mut self)
        ensures
            *final(self) == with_state(*old(self), AgentState::Terminated, final(self).updated_at),
            is_clock_reading(final(self).updated_at),
    {
        self.transition_to(AgentState::Terminated);
    }

    /// Marks the agent as failed, whatever state it is in.
    pub fn fail(&mut self)
        ensures
            *final(self) == with_state(*old(self), AgentState::Error, final(self).updated_at),
            is_clock_reading(final(self).updated_at),
    {
        self.transition_to(AgentState::Error);
    }

    fn transition_to(&mut self, new_state: AgentState)
        ensures
            *final(self) == with_state(*old(self), new_state, final(self).updated_at),
            is_clock_reading(final(self).updated_at),
    {
        self.state = new_state;
        self.updated_at = now();
    }
}

/// A lifecycle transition changes only the state and the time of the last
/// change: the agent's identifier, name, model, budget and creation time
/// stay as they were.
pub proof fn law_transitions_keep_identity_and_budget(a: Agent, s: AgentState, t: Timestamp)
    ensures
        with_state(a, s, t).id == a.id,
        with_state(a, s, t).name == a.name,
        with_state(a, s, t).model_id == a.model_id,
        with_state(a, s, t).budget == a.budget,
        with_state(a, s, t).created_at == a.created_at,
        with_state(a, s, t).state == s,
{
}

/// Pausing a running agent and starting it again brings it back to
/// `Running`: every state that `pause` reaches, `start` leaves for
/// `Running`.
pub proof fn law_pause_then_resume(s: AgentState)
    requires
        pause_target(s) is Some,
    ensures
        start_target(pause_target(s).unwrap()) == Some(AgentState::Running),
{
}

/// A terminated or failed agent can be neither started nor paused, and a
/// running agent cannot be started again.
pub proof fn law_no_start_or_pause_after_the_end(s: AgentState)
    ensures
        s == AgentState::Terminated || s == AgentState::Error ==> start_target(s) is None
            && pause_target(s) is None,
        s == AgentState::Running ==> start_target(s) is None,
{
}

/// Every accepted transition leads to a state from which the agent can be
/// stopped or paused or started again: `start` always reaches `Running`,
/// which `pause` accepts, and `pause` always reaches `Suspended`, which
/// `start` accepts.
pub proof fn law_transitions_can_always_continue(s: AgentState)
    ensures
        start_target(s) matches Some(t) ==> pause_target(t) is Some,
        pause_target(s) matches Some(t) ==> start_target(t) is Some,
{
}

/// Only a running agent can be paused, and pausing always suspends it;
/// only a pending or a suspended agent can be started, and starting always
/// makes it run.
pub proof fn law_which_states_pause_and_start(s: AgentState)
    ensures
        (pause_target(s) is Some) <==> (s == AgentState::Running),
        pause_target(s) is Some ==> pause_target(s) == Some(AgentState::Suspended),
        (start_target(s) is Some) <==> (s == AgentState::Pending || s == AgentState::Suspended),
        start_target(s) is Some ==> start_target(s) == Some(AgentState::Running),
        pause_target(AgentState::Suspended) is None,
        pause_target(AgentState::Pending) is None,
{
}

/// Each state is stored under the name of its variant.
pub proof fn law_state_names()
    ensures
        state_name(AgentState::Pending) == "Pending"@,
        state_name(AgentState::Running) == "Running"@,
        state_name(AgentState::Suspended) == "Suspended"@,
        state_name(AgentState::Terminated) == "Terminated"@,
        state_name(AgentState::Error) == "Error"@,
{
}

} // verus!
