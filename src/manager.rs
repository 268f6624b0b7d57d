use crate::entity::{EntityId, Role};
use crate::table::NameTable;
use vstd::prelude::*;
use vstd::string::*;

verus! {

/// The identity under which the agent of `project_name` replies.
pub fn agent_identity(project_name: &String) -> (r: EntityId)
    ensures
        r.id@ == "agent-"@ + project_name@,
        r.name@ == "Mothership Agent"@,
        r.role == Role::Agent,
{
    EntityId::new(
        String::from_str("agent-").concat(project_name.as_str()),
        String::from_str("Mothership Agent"),
        Role::Agent,
    )
}

/// Where the bridge of a project stands.
#[derive(Debug)]
pub enum BridgeSlot<B> {
    /// A bridge is being started.
    Starting,
    Running(B),
    /// The last start failed; a new one may be tried.
    Failed,
}

/// Whether a new bridge may start for a project in `sessions`: none runs or
/// is being started.
pub open spec fn may_start<B>(sessions: Map<Seq<char>, BridgeSlot<B>>, project: Seq<char>) -> bool {
    !sessions.contains_key(project) || sessions[project] is Failed
}

/// Claims the start of `project`'s bridge in one step, so that one bridge at
/// most runs per project: when one may start, `Starting` is recorded and the
/// result is true; otherwise nothing changes and the result is false.
pub fn claim_start<B>(sessions: &mut NameTable<BridgeSlot<B>>, project: &String) -> (r: bool)
    ensures
        r == may_start(old(sessions)@, project@),
        r ==> final(sessions)@ == old(sessions)@.insert(project@, BridgeSlot::Starting),
        !r ==> final(sessions)@ == old(sessions)@,
{
    let free = match sessions.get(project.as_str()) {
        None => true,
        Some(BridgeSlot::Failed) => true,
        Some(_) => false,
    };
    if free {
        sessions.insert(project.clone(), BridgeSlot::Starting);
    }
    free
}

/// The periodic job runner; it has no jobs yet.
pub struct Scheduler {}

impl Scheduler {
    pub fn new() -> (r: Self) {
        Scheduler {}
    }
}

} // verus!
