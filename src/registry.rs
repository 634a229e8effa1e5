use vstd::prelude::*;
use crate::string_map::StringMap;

verus! {

broadcast use vstd::string::to_string_from_display_ensures_for_str;

/// What a registry holds: agent id to status, and task id to task payload.
pub ghost struct RegistryView {
    pub agents: Map<Seq<char>, Seq<char>>,
    pub tasks: Map<Seq<char>, Seq<char>>,
}

impl RegistryView {
    /// Both tables empty.
    pub open spec fn empty() -> RegistryView {
        RegistryView { agents: Map::empty(), tasks: Map::empty() }
    }

    /// The registry after the status of `agent_id` is set to `status`.
    pub open spec fn with_agent_status(self, agent_id: Seq<char>, status: Seq<char>) -> RegistryView {
        RegistryView { agents: self.agents.insert(agent_id, status), tasks: self.tasks }
    }

    /// The registry after task `task_id` is recorded with payload `task_data`.
    pub open spec fn with_task(self, task_id: Seq<char>, task_data: Seq<char>) -> RegistryView {
        RegistryView { agents: self.agents, tasks: self.tasks.insert(task_id, task_data) }
    }

    /// The registry after task `task_id` is dropped, whether or not it was there.
    pub open spec fn without_task(self, task_id: Seq<char>) -> RegistryView {
        RegistryView { agents: self.agents, tasks: self.tasks.remove(task_id) }
    }
}

/// The fixed description of the application: name, version and description.
pub open spec fn app_info_map() -> Map<Seq<char>, Seq<char>> {
    map![
        "name"@ => "ESAF Framework"@,
        "version"@ => "0.1.0"@,
        "description"@ => "Evolved Synergistic Agentic Framework"@,
    ]
}

/// The application description, the same on every call.
pub fn app_info() -> (r: StringMap)
    ensures
        r@ == app_info_map(),
{
    let mut info = StringMap::new();
    info.insert("name".to_string(), "ESAF Framework".to_string());
    info.insert("version".to_string(), "0.1.0".to_string());
    info.insert("description".to_string(), "Evolved Synergistic Agentic Framework".to_string());
    info
}

/// Two independent tables: the status of each agent and the payload of each task.
pub struct Registry {
    agents: StringMap,
    tasks: StringMap,
}

impl View for Registry {
    type V = RegistryView;

    closed spec fn view(&self) -> RegistryView {
        RegistryView { agents: self.agents@, tasks: self.tasks@ }
    }
}

impl Registry {
    /// A registry with both tables empty.
    pub fn new() -> (r: Registry)
        ensures
            r@ == RegistryView::empty(),
    {
        Registry { agents: StringMap::new(), tasks: StringMap::new() }
    }

    /// A copy of the agent table.
    pub fn agent_statuses(&self) -> (r: StringMap)
        ensures
            r@ == self@.agents,
            r@.dom().finite(),
    {
        self.agents.snapshot()
    }

    /// Sets the status of `agent_id`, overwriting an earlier one.
    pub fn set_agent_status(&mut self, agent_id: String, status: String)
        ensures
            final(self)@ == old(self)@.with_agent_status(agent_id@, status@),
            old(self)@.agents.dom().finite(),
            final(self)@.agents.dom().finite(),
    {
        self.agents.insert(agent_id, status);
    }

    /// A copy of the task table.
    pub fn tasks(&self) -> (r: StringMap)
        ensures
            r@ == self@.tasks,
            r@.dom().finite(),
    {
        self.tasks.snapshot()
    }

    /// Records task `task_id` with payload `task_data`, overwriting an earlier one.
    pub fn add_task(&mut self, task_id: String, task_data: String)
        ensures
            final(self)@ == old(self)@.with_task(task_id@, task_data@),
            old(self)@.tasks.dom().finite(),
            final(self)@.tasks.dom().finite(),
    {
        self.tasks.insert(task_id, task_data);
    }

    /// Drops task `task_id`; a task that is not there is no error.
    pub fn remove_task(&mut self, task_id: &String)
        ensures
            final(self)@ == old(self)@.without_task(task_id@),
            old(self)@.tasks.dom().finite(),
            final(self)@.tasks.dom().finite(),
    {
        self.tasks.remove(task_id);
    }
}

/// The registry after the status writes `writes` are applied to `r`, first to last.
pub open spec fn after_status_writes(r: RegistryView, writes: Seq<(Seq<char>, Seq<char>)>) -> RegistryView
    decreases writes.len(),
{
    if writes.len() == 0 {
        r
    } else {
        after_status_writes(r, writes.drop_last()).with_agent_status(
            writes.last().0,
            writes.last().1,
        )
    }
}

/// The status that the last write to `agent_id` in `writes` carries, if any write names it.
pub open spec fn last_status(writes: Seq<(Seq<char>, Seq<char>)>, agent_id: Seq<char>) -> Option<
    Seq<char>,
>
    decreases writes.len(),
{
    if writes.len() == 0 {
        None
    } else if writes.last().0 == agent_id {
        Some(writes.last().1)
    } else {
        last_status(writes.drop_last(), agent_id)
    }
}

/// Last write wins: after any sequence of status writes, an agent that was
/// written holds the status of its last write, an agent that was not keeps
/// what it had, and the task table is untouched.
pub proof fn lemma_last_status_write_wins(
    r: RegistryView,
    writes: Seq<(Seq<char>, Seq<char>)>,
    agent_id: Seq<char>,
)
    ensures
        after_status_writes(r, writes).tasks == r.tasks,
        last_status(writes, agent_id) is Some <==> exists|i: int|
            0 <= i < writes.len() && (#[trigger] writes[i]).0 == agent_id,
        match last_status(writes, agent_id) {
            Some(s) => after_status_writes(r, writes).agents.contains_key(agent_id)
                && after_status_writes(r, writes).agents[agent_id] == s,
            None => after_status_writes(r, writes).agents.contains_key(agent_id)
                == r.agents.contains_key(agent_id) && after_status_writes(r, writes).agents[agent_id]
                == r.agents[agent_id],
        },
    decreases writes.len(),
{
    if writes.len() > 0 {
        let prefix = writes.drop_last();
        lemma_last_status_write_wins(r, prefix, agent_id);
        assert forall|i: int| 0 <= i < prefix.len() implies #[trigger] prefix[i] == writes[i] by {}
        if last_status(writes, agent_id) is None {
            assert forall|i: int| 0 <= i < writes.len() implies (#[trigger] writes[i]).0
                != agent_id by {
                if i < prefix.len() {
                    assert(prefix[i] == writes[i]);
                }
            }
        }
    }
}

/// A run of status writes, each taking the registry from one state to the next
/// as `Registry::set_agent_status` states, ends where `after_status_writes` says.
pub proof fn lemma_status_write_run(states: Seq<RegistryView>, writes: Seq<(Seq<char>, Seq<char>)>)
    requires
        states.len() == writes.len() + 1,
        forall|i: int|
            0 <= i < writes.len() ==> #[trigger] states[i + 1] == states[i].with_agent_status(
                writes[i].0,
                writes[i].1,
            ),
    ensures
        states.last() == after_status_writes(states[0], writes),
    decreases writes.len(),
{
    if writes.len() > 0 {
        let n = writes.len() as int;
        let ps = states.drop_last();
        let pw = writes.drop_last();
        assert forall|i: int| 0 <= i < pw.len() implies #[trigger] ps[i + 1]
            == ps[i].with_agent_status(pw[i].0, pw[i].1) by {
            assert(states[i + 1] == states[i].with_agent_status(writes[i].0, writes[i].1));
        }
        lemma_status_write_run(ps, pw);
        assert(states[n] == states[n - 1].with_agent_status(writes[n - 1].0, writes[n - 1].1));
    }
}

/// Removing a task twice leaves the registry as removing it once does.
pub proof fn lemma_remove_task_idempotent(r: RegistryView, task_id: Seq<char>)
    ensures
        r.without_task(task_id).without_task(task_id) == r.without_task(task_id),
{
    assert(r.without_task(task_id).tasks.remove(task_id) =~= r.tasks.remove(task_id));
}

/// A task just added is there with its payload; a task just removed is gone.
pub proof fn lemma_add_then_remove_task(r: RegistryView, task_id: Seq<char>, task_data: Seq<char>)
    ensures
        r.with_task(task_id, task_data).tasks.contains_key(task_id),
        r.with_task(task_id, task_data).tasks[task_id] == task_data,
        !r.with_task(task_id, task_data).without_task(task_id).tasks.contains_key(task_id),
        !r.without_task(task_id).tasks.contains_key(task_id),
{
}

/// Two writes to one agent, applied one after the other in either order,
/// leave that agent with exactly the status of the write that came second.
pub proof fn lemma_two_status_writes_serialize(
    r: RegistryView,
    agent_id: Seq<char>,
    x: Seq<char>,
    y: Seq<char>,
)
    ensures
        r.with_agent_status(agent_id, x).with_agent_status(agent_id, y).agents.contains_key(agent_id),
        r.with_agent_status(agent_id, x).with_agent_status(agent_id, y).agents[agent_id] == y,
        r.with_agent_status(agent_id, y).with_agent_status(agent_id, x).agents.contains_key(agent_id),
        r.with_agent_status(agent_id, y).with_agent_status(agent_id, x).agents[agent_id] == x,
{
}

} // verus!
