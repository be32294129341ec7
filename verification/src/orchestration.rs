//! The orchestrator's plan for a development mission: a "development
//! squad" of an architect and a coder.
use crate::agent::{Agent, AgentState, is_clock_reading};
use crate::budget::fresh_budget;
use crate::clock::{Id, uuid_layout_mask, uuid_v4_layout};
use crate::identity::Identity;
use crate::mission::{Mission, MissionStatus};
use crate::text::join2;
use vstd::prelude::*;

verus! {

/// The instructions of the lead architect.
pub const ARCHITECT_PROMPT: &'static str = "You are the Lead Architect. Break down the user's goal into small, actionable coding tasks.";

/// The instructions of the senior developer.
pub const CODER_PROMPT: &'static str = "You are a Senior Developer. Implement the tasks assigned by the Architect with high-quality code.";

/// A development mission ready to be persisted and launched.
pub struct DevMissionPlan {
    /// The mission, active, with both agents taking part.
    pub mission: Mission,
    /// The identity of the lead architect.
    pub architect_identity: Identity,
    /// The identity of the senior developer.
    pub coder_identity: Identity,
    /// The architect agent: on `gpt-4`, 5 dollars and 50000 tokens.
    pub architect: Agent,
    /// The coder agent: on `gpt-4`, 10 dollars and 100000 tokens.
    pub coder: Agent,
    /// The agents whose cognitive loops start with the mission.
    pub launch: Vec<Id>,
}

/// Plans a development mission for `title` with the goal `goal`: two
/// pending agents named after the mission, a mission that is active with
/// both of them, and the architect's loop to start.
pub fn plan_dev_mission(title: String, goal: String) -> (p: DevMissionPlan)
    ensures
        p.mission.id & uuid_layout_mask() == uuid_v4_layout(),
        p.mission.shared_context_id & uuid_layout_mask() == uuid_v4_layout(),
        p.architect.id & uuid_layout_mask() == uuid_v4_layout(),
        p.coder.id & uuid_layout_mask() == uuid_v4_layout(),
        p.architect.created_at == p.architect.updated_at,
        is_clock_reading(p.architect.created_at),
        p.coder.created_at == p.coder.updated_at,
        is_clock_reading(p.coder.created_at),
        p.architect_identity.allowed_tools@.len() == 0,
        p.coder_identity.allowed_tools@.len() == 0,
        p.mission.title == title,
        p.mission.description == goal,
        p.mission.status == MissionStatus::Active,
        p.mission.agent_ids@ == set![p.architect.id, p.coder.id],
        p.architect_identity.role_name@ == "Lead Architect"@,
        p.architect_identity.system_prompt@ == ARCHITECT_PROMPT@,
        p.coder_identity.role_name@ == "Senior Developer"@,
        p.coder_identity.system_prompt@ == CODER_PROMPT@,
        p.architect.name@ == title@ + "-Architect"@,
        p.architect.model_id@ == "gpt-4"@,
        p.architect.state == AgentState::Pending,
        p.architect.budget == fresh_budget(5_000_000, 50000),
        p.coder.name@ == title@ + "-Coder"@,
        p.coder.model_id@ == "gpt-4"@,
        p.coder.state == AgentState::Pending,
        p.coder.budget == fresh_budget(10_000_000, 100000),
        p.launch@ == seq![p.architect.id],
{
    let mut mission = Mission::new(title, goal);
    let architect_identity = Identity::new(
        String::from_str("Lead Architect"),
        String::from_str(ARCHITECT_PROMPT),
    );
    let coder_identity = Identity::new(
        String::from_str("Senior Developer"),
        String::from_str(CODER_PROMPT),
    );
    let architect = Agent::new(
        join2(mission.title.as_str(), "-Architect"),
        String::from_str("gpt-4"),
        5_000_000,
        50000,
    );
    let coder = Agent::new(
        join2(mission.title.as_str(), "-Coder"),
        String::from_str("gpt-4"),
        10_000_000,
        100000,
    );
    mission.add_agent(architect.id);
    mission.add_agent(coder.id);
    mission.status = MissionStatus::Active;
    assert(mission.agent_ids@ =~= set![architect.id, coder.id]);
    let mut launch: Vec<Id> = Vec::new();
    launch.push(architect.id);
    DevMissionPlan { mission, architect_identity, coder_identity, architect, coder, launch }
}

} // verus!
