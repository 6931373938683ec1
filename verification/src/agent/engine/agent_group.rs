//! A group of agents over a set of registered devices.

use vstd::prelude::*;
use crate::agent::engine::agent::{is_running, PhoneAgent};
use crate::agent::engine::state::{AgentConfig, AgentState};
use crate::agent::engine::traits::AgentError;
use crate::agent::llm::types::ModelConfig;
use crate::error::AppError;
use crate::outside::new_uuid_text;
use crate::scrcpy::scrcpy::without_client;
use crate::text::same_text;

verus! {

/// What a group tells its subscribers.
#[derive(Debug, Clone, PartialEq, Eq)]
pub enum AgentGroupEvent {
    AgentCreated { agent_id: String, device_serial: String },
    AgentStarted { agent_id: String, task: String },
    AgentCompleted { agent_id: String, result: String },
    AgentFailed { agent_id: String, error: String },
    AgentStopped { agent_id: String },
    Custom { agent_id: String, event_type: String, data: String },
}

/// The limits of a group.
#[derive(Debug, Clone, Copy, PartialEq, Eq)]
pub struct AgentGroupConfig {
    pub max_concurrent_agents: usize,
    pub task_queue_size: usize,
    pub enable_event_broadcast: bool,
}

impl Default for AgentGroupConfig {
    /// Five agents at a time, a hundred queued tasks, events on.
    fn default() -> (r: Self)
        ensures
            r.max_concurrent_agents == 5,
            r.task_queue_size == 100,
            r.enable_event_broadcast,
    {
        Self { max_concurrent_agents: 5, task_queue_size: 100, enable_event_broadcast: true }
    }
}

/// The index of the first agent at or after `from` whose identifier is
/// `id`, or -1 where there is none.
pub open spec fn agent_index(agents: Seq<PhoneAgent>, id: Seq<char>, from: int) -> int
    decreases agents.len() - from,
{
    if from < 0 || from >= agents.len() {
        -1
    } else if agents[from].id@ == id {
        from
    } else {
        agent_index(agents, id, from + 1)
    }
}

/// The number of agents among the first `k` that are running.
pub open spec fn running_count(agents: Seq<PhoneAgent>, k: int) -> nat
    decreases k,
{
    if k <= 0 || k > agents.len() {
        0
    } else if is_running(agents[k - 1].runtime.state) {
        running_count(agents, k - 1) + 1
    } else {
        running_count(agents, k - 1)
    }
}

/// Whether no identifier occurs twice among the agents: the group holds
/// at most one agent for an identifier.
pub open spec fn distinct_agents(agents: Seq<PhoneAgent>) -> bool {
    forall|i: int, j: int|
        #![trigger agents[i], agents[j]]
        0 <= i < j < agents.len() ==> agents[i].id@ != agents[j].id@
}

/// Whether no text occurs twice in a list.
pub open spec fn distinct_texts(texts: Seq<Seq<char>>) -> bool {
    forall|i: int, j: int|
        #![trigger texts[i], texts[j]]
        0 <= i < j < texts.len() ==> texts[i] != texts[j]
}

/// The place of the agent with the identifier `id`: where an agent has
/// it, the index of that agent; else the end of the list.
pub open spec fn place_of(agents: Seq<PhoneAgent>, id: Seq<char>) -> int {
    if agent_index(agents, id, 0) >= 0 {
        agent_index(agents, id, 0)
    } else {
        agents.len() as int
    }
}

/// Whether the agent with the identifier `id` is among the agents and
/// has begun the task `task`: it is initializing with that task.
pub open spec fn runs_task(agents: Seq<PhoneAgent>, id: Seq<char>, task: Seq<char>) -> bool {
    let q = agent_index(agents, id, 0);
    &&& 0 <= q < agents.len()
    &&& agents[q].runtime.state is Initializing
    &&& agents[q].runtime.current_task matches Some(t) && t@ == task
}

/// The index of an identifier lies within the agents or is -1; where it
/// lies within, the agent at it has that identifier and no agent before
/// it has; where it is -1, no agent from `from` on has it.
pub proof fn lemma_agent_index(agents: Seq<PhoneAgent>, id: Seq<char>, from: int)
    requires
        0 <= from,
    ensures
        -1 <= agent_index(agents, id, from) < agents.len(),
        agent_index(agents, id, from) >= 0 ==> from <= agent_index(agents, id, from)
            && agents[agent_index(agents, id, from)].id@ == id,
        forall|j: int|
            from <= j < agent_index(agents, id, from) ==> (#[trigger] agents[j]).id@ != id,
        agent_index(agents, id, from) == -1 ==> forall|j: int|
            from <= j < agents.len() ==> (#[trigger] agents[j]).id@ != id,
    decreases agents.len() - from,
{
    if from < agents.len() && agents[from].id@ != id {
        lemma_agent_index(agents, id, from + 1);
    }
}

/// An identifier keeps its index where the agents keep their
/// identifiers: in a list that is at least as long and has the same
/// identifier at every index of the first, an identifier that the first
/// holds is found at the same index; and in a list of the same length,
/// an identifier that the first does not hold is not found either.
pub proof fn lemma_agent_index_kept(
    a: Seq<PhoneAgent>,
    b: Seq<PhoneAgent>,
    id: Seq<char>,
    from: int,
)
    requires
        0 <= from,
        a.len() <= b.len(),
        forall|j: int| 0 <= j < a.len() ==> (#[trigger] b[j]).id@ == a[j].id@,
    ensures
        agent_index(a, id, from) >= 0 ==> agent_index(b, id, from) == agent_index(a, id, from),
        a.len() == b.len() ==> agent_index(b, id, from) == agent_index(a, id, from),
    decreases a.len() - from,
{
    if from < a.len() {
        assert(b[from].id@ == a[from].id@);
        if a[from].id@ != id {
            lemma_agent_index_kept(a, b, id, from + 1);
        }
    }
}

/// Removing a text from a list in which none occurs twice leaves a list
/// in which none occurs twice, and every text of it was in the list.
pub proof fn lemma_without_keeps_distinct(texts: Seq<Seq<char>>, x: Seq<char>)
    requires
        distinct_texts(texts),
    ensures
        distinct_texts(without_client(texts, x)),
        forall|k: int|
            0 <= k < without_client(texts, x).len() ==> texts.contains(
                #[trigger] without_client(texts, x)[k],
            ),
    decreases texts.len(),
{
    if texts.len() > 0 {
        let rest = texts.drop_last();
        assert forall|i: int, j: int| 0 <= i < j < rest.len() implies (#[trigger] rest[i]) != (
        #[trigger] rest[j]) by {
            assert(rest[i] == texts[i] && rest[j] == texts[j]);
        }
        lemma_without_keeps_distinct(rest, x);
        let kept = without_client(rest, x);
        assert forall|k: int| 0 <= k < kept.len() implies texts.contains(#[trigger] kept[k]) by {
            let m = choose|m: int| 0 <= m < rest.len() && rest[m] == kept[k];
            assert(texts[m] == kept[k]);
        }
        if texts.last() != x {
            let out = kept.push(texts.last());
            assert forall|i: int, j: int| 0 <= i < j < out.len() implies (#[trigger] out[i]) != (
            #[trigger] out[j]) by {
                if j == kept.len() {
                    let m = choose|m: int| 0 <= m < rest.len() && rest[m] == kept[i];
                    assert(texts[m] == kept[i]);
                    assert(texts[m] != texts[texts.len() - 1]);
                } else {
                    assert(out[i] == kept[i] && out[j] == kept[j]);
                }
            }
            assert forall|k: int| 0 <= k < out.len() implies texts.contains(#[trigger] out[k]) by {
                if k == kept.len() {
                    assert(texts[texts.len() - 1] == out[k]);
                } else {
                    assert(out[k] == kept[k]);
                }
            }
        }
    }
}

/// A group of agents. Events are appended to the outbox of the group.
#[derive(Debug, Clone)]
pub struct AgentGroup {
    pub id: String,
    /// The agents, in the order their identifiers were first used.
    pub agents: Vec<PhoneAgent>,
    /// The serials of the registered devices.
    pub devices: Vec<String>,
    pub config: AgentGroupConfig,
    pub model_config: ModelConfig,
    pub events: Vec<AgentGroupEvent>,
}

impl AgentGroup {
    /// Whether the group holds at most one agent for an identifier and
    /// every serial at most once. Every function of the group keeps
    /// this.
    pub open spec fn well_formed(self) -> bool {
        distinct_agents(self.agents@) && distinct_texts(self.devices.deep_view())
    }

    /// Whether `other` has the identifier and the settings of this
    /// group.
    pub open spec fn same_settings(self, other: AgentGroup) -> bool {
        &&& other.id == self.id
        &&& other.config == self.config
        &&& other.model_config == self.model_config
    }

    /// An empty group with the given identifier.
    pub fn with_id(id: String, config: AgentGroupConfig, model_config: ModelConfig) -> (r: Self)
        ensures
            r.well_formed(),
            r.id == id,
            r.agents@.len() == 0,
            r.devices@.len() == 0,
            r.events@.len() == 0,
            r.config == config,
            r.model_config == model_config,
    {
        Self {
            id,
            agents: Vec::new(),
            devices: Vec::new(),
            config,
            model_config,
            events: Vec::new(),
        }
    }

    /// An empty group with a random identifier.
    pub fn new(config: AgentGroupConfig, model_config: ModelConfig) -> (r: Self)
        ensures
            r.well_formed(),
            r.id@.len() == 36,
            r.agents@.len() == 0,
            r.devices@.len() == 0,
            r.events@.len() == 0,
            r.config == config,
            r.model_config == model_config,
    {
        Self::with_id(new_uuid_text(), config, model_config)
    }

    /// The identifier of the group.
    pub fn id(&self) -> (r: &str)
        ensures
            r@ == self.id@,
    {
        self.id.as_str()
    }

    /// Whether a device is registered.
    pub fn has_device(&self, serial: &str) -> (b: bool)
        ensures
            b == self.devices.deep_view().contains(serial@),
    {
        let mut i: usize = 0;
        while i < self.devices.len()
            invariant
                i <= self.devices@.len(),
                forall|j: int| 0 <= j < i ==> self.devices.deep_view()[j] != serial@,
            decreases self.devices@.len() - i,
        {
            if same_text(self.devices[i].as_str(), serial) {
                proof {
                    assert(self.devices.deep_view()[i as int] == serial@);
                }
                return true;
            }
            i += 1;
        }
        false
    }

    /// Registers a device; a device that is registered already stays.
    pub fn register_device(&mut self, serial: String)
        ensures
            old(self).well_formed() ==> final(self).well_formed(),
            old(self).same_settings(*final(self)),
            final(self).agents == old(self).agents,
            final(self).events == old(self).events,
            final(self).devices.deep_view() == (if old(self).devices.deep_view().contains(
                serial@,
            ) {
                old(self).devices.deep_view()
            } else {
                old(self).devices.deep_view().push(serial@)
            }),
    {
        if !self.has_device(serial.as_str()) {
            self.devices.push(serial);
            proof {
                let before = old(self).devices.deep_view();
                let after = self.devices.deep_view();
                assert(after =~= before.push(serial@));
                if distinct_texts(before) {
                    assert forall|i: int, j: int| 0 <= i < j < after.len() implies (
                    #[trigger] after[i]) != (#[trigger] after[j]) by {
                        assert(after[i] == before[i]);
                        if j < before.len() {
                            assert(after[j] == before[j]);
                        } else {
                            assert(before.contains(before[i]));
                        }
                    }
                }
            }
        }
    }

    /// Removes a device from the registered ones.
    pub fn unregister_device(&mut self, serial: &str)
        ensures
            old(self).well_formed() ==> final(self).well_formed(),
            old(self).same_settings(*final(self)),
            final(self).agents == old(self).agents,
            final(self).events == old(self).events,
            final(self).devices.deep_view() == without_client(
                old(self).devices.deep_view(),
                serial@,
            ),
    {
        let mut kept: Vec<String> = Vec::new();
        let mut all: Vec<String> = Vec::new();
        std::mem::swap(&mut all, &mut self.devices);
        let ghost views = all.deep_view();
        let mut i: usize = 0;
        proof {
            assert(views.take(0) =~= Seq::<Seq<char>>::empty());
            assert(kept.deep_view() =~= without_client(views.take(0), serial@));
        }
        while i < all.len()
            invariant
                i <= all@.len(),
                all@ == old(self).devices@,
                views == all.deep_view(),
                old(self).same_settings(*self),
                self.agents == old(self).agents,
                self.events == old(self).events,
                kept.deep_view() == without_client(views.take(i as int), serial@),
            decreases all@.len() - i,
        {
            proof {
                assert(views.take(i + 1).drop_last() =~= views.take(i as int));
                assert(views.take(i + 1).last() == all@[i as int]@);
            }
            if !same_text(all[i].as_str(), serial) {
                let ghost before = kept.deep_view();
                kept.push(all[i].clone());
                proof {
                    assert(kept.deep_view() =~= before.push(all@[i as int]@));
                }
            }
            i += 1;
        }
        proof {
            assert(views.take(views.len() as int) =~= views);
            if distinct_texts(views) {
                lemma_without_keeps_distinct(views, serial@);
            }
        }
        self.devices = kept;
    }

    /// The serials of the registered devices.
    pub fn get_devices(&self) -> (r: Vec<String>)
        ensures
            r.deep_view() == self.devices.deep_view(),
    {
        let mut out: Vec<String> = Vec::new();
        let mut i: usize = 0;
        while i < self.devices.len()
            invariant
                i <= self.devices@.len(),
                out.deep_view() == self.devices.deep_view().take(i as int),
            decreases self.devices@.len() - i,
        {
            let ghost before = out.deep_view();
            out.push(self.devices[i].clone());
            proof {
                assert(out.deep_view() =~= before.push(self.devices@[i as int]@));
                assert(out.deep_view() =~= self.devices.deep_view().take(i + 1));
            }
            i += 1;
        }
        proof {
            assert(self.devices.deep_view().take(self.devices@.len() as int)
                =~= self.devices.deep_view());
        }
        out
    }

    /// The index of the agent with the identifier `agent_id`.
    pub fn get_agent(&self, agent_id: &str) -> (r: Option<usize>)
        ensures
            match r {
                Some(i) => i == agent_index(self.agents@, agent_id@, 0) && i < self.agents@.len()
                    && self.agents@[i as int].id@ == agent_id@,
                None => agent_index(self.agents@, agent_id@, 0) == -1,
            },
    {
        let mut i: usize = 0;
        while i < self.agents.len()
            invariant
                i <= self.agents@.len(),
                agent_index(self.agents@, agent_id@, 0) == agent_index(
                    self.agents@,
                    agent_id@,
                    i as int,
                ),
            decreases self.agents@.len() - i,
        {
            if same_text(self.agents[i].id.as_str(), agent_id) {
                return Some(i);
            }
            i += 1;
        }
        None
    }

    /// Creates an idle agent with the identifier `agent_id` for a
    /// registered device, and announces it; an error for a device that is
    /// not registered. The agent takes the place of an agent that has the
    /// identifier already, and else comes last.
    pub fn create_agent_with_id(&mut self, device_serial: &str, config: AgentConfig, agent_id: String) -> (r:
        Result<String, AppError>)
        ensures
            old(self).well_formed() ==> final(self).well_formed(),
            old(self).same_settings(*final(self)),
            final(self).devices == old(self).devices,
            match r {
                Ok(id) => {
                    let at = place_of(old(self).agents@, agent_id@);
                    &&& old(self).devices.deep_view().contains(device_serial@)
                    &&& id@ == agent_id@
                    &&& 0 <= at <= old(self).agents@.len()
                    &&& final(self).agents@.len() == (if at < old(self).agents@.len() {
                        old(self).agents@.len()
                    } else {
                        old(self).agents@.len() + 1
                    })
                    &&& forall|j: int|
                        0 <= j < old(self).agents@.len() && j != at ==> final(self).agents@[j]
                            == old(self).agents@[j]
                    &&& agent_index(final(self).agents@, agent_id@, 0) == at
                    &&& final(self).agents@[at].id == agent_id
                    &&& final(self).agents@[at].is_new(agent_id@, config)
                    &&& final(self).events@.len() == old(self).events@.len() + 1
                    &&& final(self).events@.drop_last() == old(self).events@
                    &&& final(self).events@.last() matches AgentGroupEvent::AgentCreated {
                        agent_id: a,
                        device_serial: d,
                    }
                    &&& a@ == agent_id@
                    &&& d@ == device_serial@
                },
                Err(e) => {
                    &&& !old(self).devices.deep_view().contains(device_serial@)
                    &&& e matches AppError::DeviceNotFound(s)
                    &&& s@ == device_serial@
                    &&& final(self).agents == old(self).agents
                    &&& final(self).events == old(self).events
                },
            },
    {
        if !self.has_device(device_serial) {
            return Err(AppError::DeviceNotFound(device_serial.to_owned()));
        }
        let id = agent_id.clone();
        let event = AgentGroupEvent::AgentCreated {
            agent_id: agent_id.clone(),
            device_serial: device_serial.to_owned(),
        };
        let ghost before = self.agents@;
        proof {
            lemma_agent_index(before, agent_id@, 0);
        }
        let taken = self.get_agent(id.as_str());
        let agent = PhoneAgent::new(agent_id, config);
        match taken {
            Some(i) => {
                self.agents.set(i, agent);
            },
            None => {
                self.agents.push(agent);
            },
        }
        self.events.push(event);
        proof {
            let after = self.agents@;
            let at = place_of(before, id@);
            assert(self.events@.drop_last() =~= old(self).events@);
            assert forall|j: int| 0 <= j < before.len() implies (#[trigger] after[j]).id@
                == before[j].id@ by {}
            lemma_agent_index(after, id@, 0);
            if at < before.len() {
                lemma_agent_index_kept(before, after, id@, 0);
            }
            if distinct_agents(before) {
                assert forall|i: int, j: int| 0 <= i < j < after.len() implies (
                #[trigger] after[i]).id@ != (#[trigger] after[j]).id@ by {
                    assert(after[i].id@ == before[i].id@);
                    if j < before.len() {
                        assert(after[j].id@ == before[j].id@);
                    }
                }
            }
        }
        Ok(id)
    }

    /// Creates an idle agent with a random identifier for a registered
    /// device. See [`AgentGroup::create_agent_with_id`], which this
    /// function calls with the identifier it drew.
    pub fn create_agent(&mut self, device_serial: &str, config: AgentConfig) -> (r: Result<
        String,
        AppError,
    >)
        ensures
            old(self).well_formed() ==> final(self).well_formed(),
            old(self).same_settings(*final(self)),
            final(self).devices == old(self).devices,
            match r {
                Ok(id) => {
                    let at = place_of(old(self).agents@, id@);
                    &&& old(self).devices.deep_view().contains(device_serial@)
                    &&& id@.len() == 36
                    &&& 0 <= at <= old(self).agents@.len()
                    &&& final(self).agents@.len() == (if at < old(self).agents@.len() {
                        old(self).agents@.len()
                    } else {
                        old(self).agents@.len() + 1
                    })
                    &&& forall|j: int|
                        0 <= j < old(self).agents@.len() && j != at ==> final(self).agents@[j]
                            == old(self).agents@[j]
                    &&& agent_index(final(self).agents@, id@, 0) == at
                    &&& final(self).agents@[at].is_new(id@, config)
                    &&& final(self).events@.len() == old(self).events@.len() + 1
                    &&& final(self).events@.drop_last() == old(self).events@
                    &&& final(self).events@.last() matches AgentGroupEvent::AgentCreated {
                        agent_id: a,
                        device_serial: d,
                    }
                    &&& a@ == id@
                    &&& d@ == device_serial@
                },
                Err(e) => {
                    &&& !old(self).devices.deep_view().contains(device_serial@)
                    &&& e matches AppError::DeviceNotFound(s)
                    &&& s@ == device_serial@
                    &&& final(self).agents == old(self).agents
                    &&& final(self).events == old(self).events
                },
            },
    {
        self.create_agent_with_id(device_serial, config, new_uuid_text())
    }

    /// Starts an agent on a task at the time `now`. An agent that is idle
    /// or whose run has ended starts, and its start is announced; an
    /// unknown agent is refused with `NotFound`, and any other agent with
    /// `AlreadyRunning`, and the group stays as it is.
    pub fn start_agent(&mut self, agent_id: &str, task: String, now: i64) -> (r: Result<
        (),
        AppError,
    >)
        ensures
            old(self).well_formed() ==> final(self).well_formed(),
            old(self).same_settings(*final(self)),
            final(self).devices == old(self).devices,
            final(self).agents@.len() == old(self).agents@.len(),
            match r {
                Ok(_) => {
                    let i = agent_index(old(self).agents@, agent_id@, 0);
                    let before = old(self).agents@[i];
                    let after = final(self).agents@[i];
                    &&& 0 <= i < old(self).agents@.len()
                    &&& (before.runtime.state is Idle || before.runtime.state.is_terminal())
                    &&& forall|j: int|
                        0 <= j < old(self).agents@.len() && j != i ==> final(self).agents@[j]
                            == old(self).agents@[j]
                    &&& before.started(after, task@, now)
                    &&& after.runtime.current_task == Some(task)
                    &&& final(self).events@.len() == old(self).events@.len() + 1
                    &&& final(self).events@.drop_last() == old(self).events@
                    &&& final(self).events@.last() matches AgentGroupEvent::AgentStarted {
                        agent_id: a,
                        task: t,
                    }
                    &&& a@ == agent_id@
                    &&& t@ == task@
                },
                Err(e) => {
                    let i = agent_index(old(self).agents@, agent_id@, 0);
                    &&& final(self).events == old(self).events
                    &&& final(self).agents@ == old(self).agents@
                    &&& if i == -1 {
                        e matches AppError::AgentError(AgentError::NotFound(s)) && s@ == agent_id@
                    } else {
                        &&& 0 <= i < old(self).agents@.len()
                        &&& !(old(self).agents@[i].runtime.state is Idle || old(
                            self,
                        ).agents@[i].runtime.state.is_terminal())
                        &&& e == AppError::AgentError(AgentError::AlreadyRunning)
                    }
                },
            },
    {
        let i = match self.get_agent(agent_id) {
            Some(i) => i,
            None => {
                return Err(AppError::AgentError(AgentError::NotFound(agent_id.to_owned())));
            },
        };
        let event = AgentGroupEvent::AgentStarted {
            agent_id: agent_id.to_owned(),
            task: task.clone(),
        };
        let agent = &mut self.agents[i];
        match agent.start(task, now) {
            Ok(_) => {
                self.events.push(event);
                proof {
                    assert(self.events@.drop_last() =~= old(self).events@);
                }
                Ok(())
            },
            Err(e) => {
                proof {
                    assert(self.agents@ =~= old(self).agents@);
                }
                Err(e)
            },
        }
    }

    /// Stops an agent and announces it; an error for an unknown agent.
    /// The agent is idle afterwards, at step zero, without task or audit
    /// trail.
    pub fn stop_agent(&mut self, agent_id: &str) -> (r: Result<(), AppError>)
        ensures
            old(self).well_formed() ==> final(self).well_formed(),
            old(self).same_settings(*final(self)),
            final(self).devices == old(self).devices,
            final(self).agents@.len() == old(self).agents@.len(),
            match r {
                Ok(_) => {
                    let i = agent_index(old(self).agents@, agent_id@, 0);
                    &&& i >= 0
                    &&& forall|j: int|
                        0 <= j < old(self).agents@.len() && j != i ==> final(self).agents@[j]
                            == old(self).agents@[j]
                    &&& i < old(self).agents@.len()
                    &&& old(self).agents@[i].stopped(final(self).agents@[i])
                    &&& final(self).events@.len() == old(self).events@.len() + 1
                    &&& final(self).events@.drop_last() == old(self).events@
                    &&& final(self).events@.last() matches AgentGroupEvent::AgentStopped {
                        agent_id: a,
                    }
                    &&& a@ == agent_id@
                },
                Err(e) => {
                    &&& agent_index(old(self).agents@, agent_id@, 0) == -1
                    &&& e matches AppError::AgentError(AgentError::NotFound(s))
                    &&& s@ == agent_id@
                    &&& final(self).agents == old(self).agents
                    &&& final(self).events == old(self).events
                },
            },
    {
        let i = match self.get_agent(agent_id) {
            Some(i) => i,
            None => {
                return Err(AppError::AgentError(AgentError::NotFound(agent_id.to_owned())));
            },
        };
        let agent = &mut self.agents[i];
        agent.stop();
        self.events.push(AgentGroupEvent::AgentStopped { agent_id: agent_id.to_owned() });
        proof {
            assert(self.events@.drop_last() =~= old(self).events@);
        }
        Ok(())
    }

    /// Removes an agent from the group, where the group holds it.
    pub fn remove_agent(&mut self, agent_id: &str)
        ensures
            old(self).well_formed() ==> final(self).well_formed(),
            old(self).same_settings(*final(self)),
            final(self).devices == old(self).devices,
            final(self).events == old(self).events,
            final(self).agents@ == (if agent_index(old(self).agents@, agent_id@, 0) >= 0 {
                old(self).agents@.remove(agent_index(old(self).agents@, agent_id@, 0))
            } else {
                old(self).agents@
            }),
    {
        match self.get_agent(agent_id) {
            Some(i) => {
                let _ = self.agents.remove(i);
            },
            None => {},
        }
    }

    /// The identifiers of the agents, in the order they were created.
    pub fn list_agents(&self) -> (r: Vec<String>)
        ensures
            r@.len() == self.agents@.len(),
            forall|i: int| 0 <= i < r@.len() ==> #[trigger] r@[i] == self.agents@[i].id,
    {
        let mut out: Vec<String> = Vec::new();
        let mut i: usize = 0;
        while i < self.agents.len()
            invariant
                i <= self.agents@.len(),
                out@.len() == i,
                forall|j: int| 0 <= j < i ==> #[trigger] out@[j] == self.agents@[j].id,
            decreases self.agents@.len() - i,
        {
            out.push(self.agents[i].id.clone());
            i += 1;
        }
        out
    }

    /// The number of agents that are running.
    pub fn active_agent_count(&self) -> (n: usize)
        ensures
            n == running_count(self.agents@, self.agents@.len() as int),
    {
        let mut n: usize = 0;
        let mut i: usize = 0;
        while i < self.agents.len()
            invariant
                i <= self.agents@.len(),
                n <= i,
                n == running_count(self.agents@, i as int),
            decreases self.agents@.len() - i,
        {
            let running = match &self.agents[i].runtime.state {
                AgentState::Initializing => true,
                AgentState::Analyzing { .. } => true,
                AgentState::Executing { .. } => true,
                AgentState::Waiting { .. } => true,
                _ => false,
            };
            if running {
                n += 1;
            }
            i += 1;
        }
        n
    }

    /// Gives a task to every registered device at the time `now`: an
    /// agent with the default settings and a random identifier is created
    /// for each and started on the task, and both is announced. Returns
    /// the identifiers of the agents, one for every device, in the order
    /// of the devices. Every agent named in the result runs the task; an
    /// agent that the group held keeps its place, and is as it was unless
    /// its identifier was drawn again.
    pub fn broadcast_task(&mut self, task: String, now: i64) -> (r: Vec<String>)
        ensures
            old(self).well_formed() ==> final(self).well_formed(),
            old(self).same_settings(*final(self)),
            final(self).devices == old(self).devices,
            r@.len() == old(self).devices@.len(),
            final(self).events@.len() == old(self).events@.len() + 2 * old(self).devices@.len(),
            forall|k: int|
                0 <= k < old(self).events@.len() ==> #[trigger] final(self).events@[k] == old(
                    self,
                ).events@[k],
            forall|k: int|
                0 <= k < r@.len() ==> {
                    &&& (#[trigger] final(self).events@[old(self).events@.len() + 2 * k])
                        matches AgentGroupEvent::AgentCreated { agent_id, device_serial }
                    &&& agent_id@ == r@[k]@
                    &&& device_serial@ == old(self).devices@[k]@
                },
            forall|k: int|
                0 <= k < r@.len() ==> {
                    &&& (#[trigger] final(self).events@[old(self).events@.len() + 2 * k + 1])
                        matches AgentGroupEvent::AgentStarted { agent_id, task: t }
                    &&& agent_id@ == r@[k]@
                    &&& t@ == task@
                },
            old(self).agents@.len() <= final(self).agents@.len() <= old(self).agents@.len() + old(
                self,
            ).devices@.len(),
            forall|j: int|
                0 <= j < old(self).agents@.len() ==> (#[trigger] final(self).agents@[j]).id@ == old(
                    self,
                ).agents@[j].id@,
            forall|j: int|
                0 <= j < old(self).agents@.len() && !r.deep_view().contains(
                    old(self).agents@[j].id@,
                ) ==> #[trigger] final(self).agents@[j] == old(self).agents@[j],
            forall|k: int| 0 <= k < r@.len() ==> runs_task(final(self).agents@, #[trigger] r@[k]@, task@),
    {
        let serials = self.get_devices();
        let mut ids: Vec<String> = Vec::new();
        let ghost origin = self.agents@;
        let ghost base = self.agents@.len();
        let ghost first = self.events@.len();
        let mut i: usize = 0;
        proof {
            assert(serials.deep_view().len() == serials@.len());
            assert(self.devices.deep_view().len() == self.devices@.len());
        }
        while i < serials.len()
            invariant
                i <= serials@.len(),
                serials@.len() == old(self).devices@.len(),
                serials.deep_view() == self.devices.deep_view(),
                old(self).well_formed() ==> self.well_formed(),
                old(self).same_settings(*self),
                self.devices == old(self).devices,
                origin == old(self).agents@,
                base == origin.len(),
                first == old(self).events@.len(),
                ids@.len() == i,
                base <= self.agents@.len() <= base + i,
                self.events@.len() == first + 2 * i,
                forall|k: int|
                    0 <= k < first ==> #[trigger] self.events@[k] == old(self).events@[k],
                forall|k: int|
                    0 <= k < i ==> {
                        &&& (#[trigger] self.events@[first + 2 * k])
                            matches AgentGroupEvent::AgentCreated { agent_id, device_serial }
                        &&& agent_id@ == ids@[k]@
                        &&& device_serial@ == self.devices@[k]@
                    },
                forall|k: int|
                    0 <= k < i ==> {
                        &&& (#[trigger] self.events@[first + 2 * k + 1])
                            matches AgentGroupEvent::AgentStarted { agent_id, task: t }
                        &&& agent_id@ == ids@[k]@
                        &&& t@ == task@
                    },
                forall|j: int| 0 <= j < base ==> (#[trigger] self.agents@[j]).id@ == origin[j].id@,
                forall|j: int|
                    0 <= j < base && !ids.deep_view().contains(origin[j].id@)
                        ==> #[trigger] self.agents@[j] == origin[j],
                forall|k: int| 0 <= k < i ==> runs_task(self.agents@, #[trigger] ids@[k]@, task@),
            decreases serials@.len() - i,
        {
            proof {
                assert(self.devices.deep_view()[i as int] == serials@[i as int]@);
                assert(self.devices.deep_view().contains(serials@[i as int]@));
            }
            let ghost before = self.agents@;
            let ghost events_before = self.events@;
            let ghost drawn = ids.deep_view();
            match self.create_agent(serials[i].as_str(), AgentConfig::default()) {
                Ok(id) => {
                    let ghost created = self.agents@;
                    let ghost announced = self.events@;
                    let ghost at = place_of(before, id@);
                    proof {
                        assert(announced.drop_last() =~= events_before);
                        assert forall|k: int| 0 <= k < first + 2 * i implies announced[k]
                            == events_before[k] by {
                            assert(announced.drop_last()[k] == announced[k]);
                        }
                        assert(serials@[i as int]@ == self.devices@[i as int]@);
                        lemma_agent_index(before, id@, 0);
                        assert forall|j: int| 0 <= j < before.len() implies (
                        #[trigger] created[j]).id@ == before[j].id@ by {}
                    }
                    match self.start_agent(id.as_str(), task.clone(), now) {
                        Ok(_) => {
                            let ghost after = self.agents@;
                            let ghost started = self.events@;
                            proof {
                                assert(started.drop_last() =~= announced);
                                assert forall|k: int| 0 <= k < first + 2 * i + 1 implies started[k]
                                    == announced[k] by {
                                    assert(started.drop_last()[k] == started[k]);
                                }
                                assert forall|j: int| 0 <= j < created.len() implies (
                                #[trigger] after[j]).id@ == created[j].id@ by {}
                                lemma_agent_index_kept(created, after, id@, 0);
                                let all = ids.deep_view().push(id@);
                                assert forall|k: int| 0 <= k < i implies runs_task(
                                    after,
                                    #[trigger] ids@[k]@,
                                    task@,
                                ) by {
                                    lemma_agent_index(before, ids@[k]@, 0);
                                    lemma_agent_index_kept(before, created, ids@[k]@, 0);
                                    lemma_agent_index_kept(created, after, ids@[k]@, 0);
                                }
                                assert(runs_task(after, id@, task@));
                                assert forall|j: int|
                                    0 <= j < base && !all.contains(origin[j].id@) implies after[j]
                                    == origin[j] by {
                                    assert(all[i as int] == id@);
                                    if drawn.contains(origin[j].id@) {
                                        let m = choose|m: int|
                                            0 <= m < drawn.len() && drawn[m] == origin[j].id@;
                                        assert(all[m] == origin[j].id@);
                                    }
                                    assert(before[j].id@ == origin[j].id@);
                                    assert(j != at);
                                }
                            }
                            ids.push(id);
                            proof {
                                assert(ids.deep_view() =~= drawn.push(id@));
                            }
                        },
                        Err(_) => {
                            self.remove_agent(id.as_str());
                        },
                    }
                },
                Err(_) => {},
            }
            i += 1;
        }
        proof {
            assert(ids@.len() == old(self).devices@.len());
        }
        ids
    }
}

} // verus!
