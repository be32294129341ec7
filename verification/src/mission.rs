//! Missions: complex tasks carried out by several specialised agents.
use crate::clock::{Id, new_id, uuid_layout_mask, uuid_v4_layout};
use std::collections::HashSet;
use vstd::prelude::*;

verus! {

broadcast use vstd::std_specs::hash::group_hash_axioms;

/// The status of a mission.
#[derive(Clone, Copy, Debug, PartialEq, Eq, Structural)]
pub enum MissionStatus {
    Queued,
    Active,
    Completed,
    Failed,
}

/// A task that needs several agents.
#[derive(Debug)]
pub struct Mission {
    pub id: Id,
    pub title: String,
    pub description: String,
    pub status: MissionStatus,
    /// The agents taking part in the mission.
    pub agent_ids: HashSet<Id>,
    /// The shared memory of the mission's agents.
    pub shared_context_id: Id,
}

impl Mission {
    /// A queued mission with no agents, a fresh identifier and a fresh
    /// shared context.
    pub fn new(title: String, description: String) -> (m: Mission)
        ensures
            m.id & uuid_layout_mask() == uuid_v4_layout(),
            m.shared_context_id & uuid_layout_mask() == uuid_v4_layout(),
            m.title == title,
            m.description == description,
            m.status == MissionStatus::Queued,
            m.agent_ids@ == Set::<Id>::empty(),
    {
        Mission {
            id: new_id(),
            title,
            description,
            status: MissionStatus::Queued,
            agent_ids: HashSet::new(),
            shared_context_id: new_id(),
        }
    }

    /// Adds an agent to the mission (adding one that takes part already
    /// changes nothing).
    pub fn add_agent(&mut self, agent_id: Id)
        ensures
            final(self).agent_ids@ == old(self).agent_ids@.insert(agent_id),
            final(self).id == old(self).id,
            final(self).title == old(self).title,
            final(self).description == old(self).description,
            final(self).status == old(self).status,
            final(self).shared_context_id == old(self).shared_context_id,
    {
        self.agent_ids.insert(agent_id);
    }
}

/// Adding an agent twice leaves the mission's agents as adding it once, and
/// adding agents never removes one.
pub proof fn law_add_agent_idempotent(agents: Set<Id>, a: Id, b: Id)
    ensures
        agents.insert(a).insert(a) == agents.insert(a),
        agents.insert(a).insert(b) == agents.insert(b).insert(a),
        agents.subset_of(agents.insert(a)),
        agents.insert(a).contains(a),
{
    assert(agents.insert(a).insert(a) =~= agents.insert(a));
    assert(agents.insert(a).insert(b) =~= agents.insert(b).insert(a));
}

} // verus!
