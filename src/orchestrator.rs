use vstd::prelude::*;
use crate::agent::{AgentId, AgentMetrics, AgentStatus, ScrapingAgent};
use crate::config::{Config, names_of};
use crate::error::ScrapingError;
use crate::monitor::{MonitorAction, PollResult, extraction_step};
use crate::text::same_text;
use crate::distribution::{DistributionCursor, SpawnRequest, lemma_walk_facts, stop_list, walk};
use crate::random::random_between;

verus! {

/// The record linking one agent to the stream it watches. Priority 0 is the
/// highest; times are milliseconds since the Unix epoch.
#[derive(Debug, Clone)]
pub struct AgentAssignment {
    pub agent_id: AgentId,
    pub streamer: String,
    pub assigned_at: u64,
    pub priority: u8,
    pub retry_attempts: u32,
    pub last_failure: Option<u64>,
}

impl AgentAssignment {
    /// An identical copy of this record.
    pub fn duplicate(&self) -> (r: AgentAssignment)
        ensures
            r == *self,
    {
        AgentAssignment {
            agent_id: self.agent_id,
            streamer: self.streamer.clone(),
            assigned_at: self.assigned_at,
            priority: self.priority,
            retry_attempts: self.retry_attempts,
            last_failure: self.last_failure,
        }
    }
}

/// Machine readings used for scaling. `cpu_usage` is in hundredths of a percent
/// (8550 is 85.5%); memory is in bytes; `timestamp` in milliseconds since the
/// Unix epoch.
#[derive(Debug, Clone, Copy, PartialEq, Eq, Structural)]
pub struct SystemMetrics {
    pub cpu_usage: u32,
    pub memory_usage: u64,
    pub memory_total: u64,
    pub active_agents: usize,
    pub total_messages_scraped: u64,
    pub timestamp: u64,
}

/// A snapshot of the orchestrator for status displays.
#[derive(Debug, Clone)]
pub struct OrchestratorStatus {
    pub active_agents: usize,
    pub total_agents_spawned: u64,
    pub system_metrics: SystemMetrics,
    pub agent_assignments: Vec<AgentAssignment>,
    pub error_count: u32,
    pub uptime_ms: u64,
}

/// The orchestrator as its contracts see it: the registered agents and, at the
/// same positions, their assignments.
pub struct OrchestratorModel {
    pub agents: Seq<ScrapingAgent>,
    pub assignments: Seq<AgentAssignment>,
    pub max_concurrent: usize,
    pub config: Config,
    pub system_metrics: SystemMetrics,
    pub total_agents_spawned: u64,
    pub error_count: u32,
    pub start_time: u64,
}

impl OrchestratorModel {
    /// Whether an agent with this id is registered.
    pub open spec fn has_agent(self, id: AgentId) -> bool {
        exists|i: int| 0 <= i < self.agents.len() && #[trigger] self.agents[i].id == id
    }

    /// Whether some agent is assigned to this streamer.
    pub open spec fn is_assigned(self, streamer: Seq<char>) -> bool {
        exists|i: int| 0 <= i < self.assignments.len() && #[trigger] self.assignments[i].streamer@ == streamer
    }

    /// The well-formedness of the registry: one assignment per agent, at most
    /// `max_concurrent` agents, distinct ids, and at most one agent per streamer.
    pub open spec fn wf(self) -> bool {
        &&& self.agents.len() == self.assignments.len()
        &&& self.agents.len() <= self.max_concurrent
        &&& forall|i: int| 0 <= i < self.agents.len() ==> #[trigger] self.assignments[i].agent_id == self.agents[i].id
        &&& forall|i: int, j: int|
            0 <= i < j < self.agents.len() ==> #[trigger] self.agents[i].id != #[trigger] self.agents[j].id
        &&& forall|i: int, j: int|
            0 <= i < j < self.assignments.len() ==> #[trigger] self.assignments[i].streamer@
                != #[trigger] self.assignments[j].streamer@
    }

    /// The registry with one more agent and its assignment; the spawn counter
    /// goes up by one (saturating).
    pub open spec fn register(self, agent: ScrapingAgent, assignment: AgentAssignment) -> OrchestratorModel {
        OrchestratorModel {
            agents: self.agents.push(agent),
            assignments: self.assignments.push(assignment),
            total_agents_spawned: self.total_agents_spawned.saturating_add(1),
            ..self
        }
    }

    /// The registry without the agent at position `i` and its assignment.
    pub open spec fn remove_at(self, i: int) -> OrchestratorModel {
        OrchestratorModel { agents: self.agents.remove(i), assignments: self.assignments.remove(i), ..self }
    }

    /// The agents that reconciling would stop.
    pub open spec fn planned_stops(self) -> Seq<AgentId> {
        stop_list(self.assignments, self.config.streamer_names())
    }

    /// Whether an agent with this id may be registered for this streamer.
    pub open spec fn can_register(self, id: AgentId, streamer: Seq<char>) -> bool {
        &&& self.agents.len() < self.max_concurrent
        &&& !self.has_agent(id)
        &&& !self.is_assigned(streamer)
    }
}

/// A fresh assignment of agent `id` to `streamer` at `priority`, made at `now`.
pub open spec fn is_fresh_assignment(a: AgentAssignment, id: AgentId, streamer: Seq<char>, priority: u8, now: u64) -> bool {
    &&& a.agent_id == id
    &&& a.streamer@ == streamer
    &&& a.assigned_at == now
    &&& a.priority == priority
    &&& a.retry_attempts == 0
    &&& a.last_failure is None
}

/// The assignment of an agent being restarted: one more retry, failed at `now`.
pub open spec fn retried(a: AgentAssignment, now: u64) -> AgentAssignment {
    AgentAssignment { retry_attempts: a.retry_attempts.saturating_add(1), last_failure: Some(now), ..a }
}

/// The assignment `pending` moved to the replacement agent `id`.
pub open spec fn rekeyed(pending: AgentAssignment, id: AgentId) -> AgentAssignment {
    AgentAssignment { agent_id: id, ..pending }
}

/// A restart in progress: the agent taken out of the registry, to be stopped by
/// the caller, and the assignment its replacement will take over.
#[derive(Debug, Clone)]
pub struct RestartTicket {
    pub retired: ScrapingAgent,
    pub assignment: AgentAssignment,
}

/// Whether memory use is above `pct` percent of the total.
pub open spec fn memory_above(m: SystemMetrics, pct: int) -> bool {
    m.memory_usage * 100 > pct * m.memory_total
}

/// Whether memory use is below `pct` percent of the total.
pub open spec fn memory_below(m: SystemMetrics, pct: int) -> bool {
    m.memory_usage * 100 < pct * m.memory_total
}

/// Whether CPU use is above `pct` percent.
pub open spec fn cpu_above(m: SystemMetrics, pct: int) -> bool {
    m.cpu_usage > pct * 100
}

/// Whether CPU use is below `pct` percent.
pub open spec fn cpu_below(m: SystemMetrics, pct: int) -> bool {
    m.cpu_usage < pct * 100
}

/// Whether memory use is above `pct` percent of the total.
fn memory_exceeds(m: &SystemMetrics, pct: u64) -> (r: bool)
    requires
        pct <= 100,
    ensures
        r == memory_above(*m, pct as int),
{
    let total = m.memory_total as u128;
    let p = pct as u128;
    assert(p * total <= 100 * 0xffff_ffff_ffff_ffffu128) by (nonlinear_arith)
        requires
            p <= 100,
            total <= 0xffff_ffff_ffff_ffffu128,
    ;
    (m.memory_usage as u128) * 100 > p * total
}

/// Whether memory use is below `pct` percent of the total.
fn memory_under(m: &SystemMetrics, pct: u64) -> (r: bool)
    requires
        pct <= 100,
    ensures
        r == memory_below(*m, pct as int),
{
    let total = m.memory_total as u128;
    let p = pct as u128;
    assert(p * total <= 100 * 0xffff_ffff_ffff_ffffu128) by (nonlinear_arith)
        requires
            p <= 100,
            total <= 0xffff_ffff_ffff_ffffu128,
    ;
    (m.memory_usage as u128) * 100 < p * total
}

/// The decision of one scaling evaluation.
#[derive(Debug, Clone)]
pub enum ScalingDecision {
    /// Stop this agent: the one with the numerically highest priority.
    ScaleDown(AgentId),
    /// Start an agent for a configured streamer that has none.
    ScaleUp(SpawnRequest),
    /// Leave the agents as they are.
    Hold,
}

/// The advisory reading of the periodic scaling check.
#[derive(Debug, Clone, Copy, PartialEq, Eq, Structural)]
pub enum ScalingAdvice {
    /// Resource use is critical and more than one agent runs.
    Critical,
    /// There is room for more agents.
    Headroom,
    Steady,
}

/// Resource alerts raised by one system-monitor tick.
#[derive(Debug, Clone, Copy, PartialEq, Eq, Structural)]
pub struct ResourceAlerts {
    /// CPU use above 80%.
    pub high_cpu: bool,
    /// Memory use above 85%.
    pub high_memory: bool,
}

/// The ids of the agents that satisfy `p`, in registry order.
pub open spec fn ids_where(agents: Seq<ScrapingAgent>, p: spec_fn(ScrapingAgent) -> bool) -> Seq<AgentId>
    decreases agents.len(),
{
    if agents.len() == 0 {
        Seq::empty()
    } else {
        let rest = ids_where(agents.drop_last(), p);
        if p(agents.last()) {
            rest.push(agents.last().id)
        } else {
            rest
        }
    }
}

/// Whether an agent fails more than once per ten seconds of uptime, whole
/// seconds counted, at clock reading `now`.
pub open spec fn error_rate_too_high(a: ScrapingAgent, now: u64) -> bool {
    let secs = a.uptime_at(now) / 1000;
    secs > 0 && a.metrics.error_count * 10 > secs
}

/// The messages scraped by all agents, added with saturation.
pub open spec fn messages_total(agents: Seq<ScrapingAgent>) -> u64
    decreases agents.len(),
{
    if agents.len() == 0 {
        0
    } else {
        messages_total(agents.drop_last()).saturating_add(agents.last().metrics.messages_scraped)
    }
}

/// The central registry of agents and the rules that govern it: a ceiling on
/// concurrent agents, one agent per streamer, and the decisions of the
/// supervision loops.
pub struct AgentOrchestrator {
    agents: Vec<ScrapingAgent>,
    agent_assignments: Vec<AgentAssignment>,
    max_concurrent: usize,
    config: Config,
    system_metrics: SystemMetrics,
    total_agents_spawned: u64,
    error_count: u32,
    start_time: u64,
}

impl View for AgentOrchestrator {
    type V = OrchestratorModel;

    closed spec fn view(&self) -> OrchestratorModel {
        OrchestratorModel {
            agents: self.agents@,
            assignments: self.agent_assignments@,
            max_concurrent: self.max_concurrent,
            config: self.config,
            system_metrics: self.system_metrics,
            total_agents_spawned: self.total_agents_spawned,
            error_count: self.error_count,
            start_time: self.start_time,
        }
    }
}

impl AgentOrchestrator {
    /// An orchestrator with no agents, whose ceiling is the configuration's
    /// `max_concurrent`, started at `now` (milliseconds).
    pub fn new(config: Config, now: u64) -> (r: AgentOrchestrator)
        ensures
            r@.wf(),
            r@.agents.len() == 0,
            r@.max_concurrent == config.agents.max_concurrent,
            r@.config == config,
            r@.total_agents_spawned == 0,
            r@.error_count == 0,
            r@.start_time == now,
            r@.system_metrics == (SystemMetrics {
                cpu_usage: 0,
                memory_usage: 0,
                memory_total: 0,
                active_agents: 0,
                total_messages_scraped: 0,
                timestamp: now,
            }),
    {
        let max_concurrent = config.agents.max_concurrent;
        AgentOrchestrator {
            agents: Vec::new(),
            agent_assignments: Vec::new(),
            max_concurrent,
            config,
            system_metrics: SystemMetrics {
                cpu_usage: 0,
                memory_usage: 0,
                memory_total: 0,
                active_agents: 0,
                total_messages_scraped: 0,
                timestamp: now,
            },
            total_agents_spawned: 0,
            error_count: 0,
            start_time: now,
        }
    }

    /// Position of the agent with this id.
    fn find_agent(&self, id: AgentId) -> (r: Option<usize>)
        ensures
            match r {
                Some(i) => i < self@.agents.len() && self@.agents[i as int].id == id,
                None => !self@.has_agent(id),
            },
    {
        let mut i: usize = 0;
        while i < self.agents.len()
            invariant
                i <= self.agents@.len(),
                forall|j: int| 0 <= j < i ==> self.agents@[j].id != id,
            decreases self.agents@.len() - i,
        {
            if self.agents[i].id == id {
                return Some(i);
            }
            i = i + 1;
        }
        None
    }

    /// Whether some agent is assigned to this streamer.
    fn streamer_assigned(&self, streamer: &str) -> (r: bool)
        ensures
            r == self@.is_assigned(streamer@),
    {
        let mut i: usize = 0;
        while i < self.agent_assignments.len()
            invariant
                i <= self.agent_assignments@.len(),
                forall|j: int| 0 <= j < i ==> self.agent_assignments@[j].streamer@ != streamer@,
            decreases self.agent_assignments@.len() - i,
        {
            if same_text(self.agent_assignments[i].streamer.as_str(), streamer) {
                return true;
            }
            i = i + 1;
        }
        false
    }

    /// Fails with `ResourceLimit` when the ceiling of concurrent agents is reached.
    pub fn check_capacity(&self) -> (r: Result<(), ScrapingError>)
        ensures
            r is Ok <==> self@.agents.len() < self@.max_concurrent,
            r is Err ==> r->Err_0 is ResourceLimit,
    {
        if self.agents.len() >= self.max_concurrent {
            Err(ScrapingError::ResourceLimit(String::from_str("Maximum concurrent agents reached")))
        } else {
            Ok(())
        }
    }

    /// Registers an agent that was started for `streamer` at `priority`, given the
    /// outcome of starting it. Fails, changing nothing:
    /// - with `ResourceLimit` when the ceiling is reached;
    /// - with the start's own error when starting failed;
    /// - with `AgentError` when the id is already registered or the streamer
    ///   already has an agent.
    /// Otherwise records a fresh assignment made at `now`, counts the spawn, and
    /// returns the agent's id.
    pub fn spawn_agent(
        &mut self,
        agent: ScrapingAgent,
        streamer: &str,
        priority: u8,
        started: Result<(), ScrapingError>,
        now: u64,
    ) -> (r: Result<AgentId, ScrapingError>)
        requires
            old(self)@.wf(),
        ensures
            final(self)@.wf(),
            old(self)@.agents.len() >= old(self)@.max_concurrent ==> r matches Err(ScrapingError::ResourceLimit(_)),
            old(self)@.agents.len() < old(self)@.max_concurrent && started is Err ==> r == Err::<AgentId, ScrapingError>(started->Err_0),
            old(self)@.agents.len() < old(self)@.max_concurrent && started is Ok && !old(self)@.can_register(agent.id, streamer@)
                ==> r matches Err(ScrapingError::AgentError(_)),
            r is Ok <==> started is Ok && old(self)@.can_register(agent.id, streamer@),
            r is Err ==> final(self)@ == old(self)@,
            r is Ok ==> {
                &&& r == Ok::<AgentId, ScrapingError>(agent.id)
                &&& final(self)@ == old(self)@.register(agent, final(self)@.assignments.last())
                &&& is_fresh_assignment(final(self)@.assignments.last(), agent.id, streamer@, priority, now)
            },
    {
        self.check_capacity()?;
        if let Err(e) = started {
            return Err(e);
        }
        if self.find_agent(agent.id).is_some() {
            return Err(ScrapingError::AgentError(String::from_str("Agent id already registered")));
        }
        if self.streamer_assigned(streamer) {
            return Err(ScrapingError::AgentError(String::from_str("Streamer already has an agent")));
        }
        let assignment = AgentAssignment {
            agent_id: agent.id,
            streamer: String::from_str(streamer),
            assigned_at: now,
            priority,
            retry_attempts: 0,
            last_failure: None,
        };
        self.register(agent, assignment);
        Ok(self.agents[self.agents.len() - 1].id)
    }

    /// Appends an agent and its assignment.
    fn register(&mut self, agent: ScrapingAgent, assignment: AgentAssignment)
        requires
            old(self)@.wf(),
            old(self)@.can_register(agent.id, assignment.streamer@),
            assignment.agent_id == agent.id,
        ensures
            final(self)@ == old(self)@.register(agent, assignment),
            final(self)@.wf(),
    {
        self.agents.push(agent);
        self.agent_assignments.push(assignment);
        self.total_agents_spawned = self.total_agents_spawned.saturating_add(1);
        proof {
            let m = self@;
            assert forall|i: int, j: int| 0 <= i < j < m.agents.len() implies m.agents[i].id != m.agents[j].id by {
                if j == m.agents.len() - 1 {
                    assert(old(self)@.agents[i].id == m.agents[i].id);
                }
            }
            assert forall|i: int, j: int| 0 <= i < j < m.assignments.len()
                implies m.assignments[i].streamer@ != m.assignments[j].streamer@ by {
                if j == m.assignments.len() - 1 {
                    assert(old(self)@.assignments[i].streamer@ == m.assignments[i].streamer@);
                }
            }
        }
    }

    /// Removes the agent at position `i` and its assignment, handing both back.
    fn remove_entry(&mut self, i: usize) -> (r: (ScrapingAgent, AgentAssignment))
        requires
            old(self)@.wf(),
            i < old(self)@.agents.len(),
        ensures
            final(self)@ == old(self)@.remove_at(i as int),
            final(self)@.wf(),
            r.0 == old(self)@.agents[i as int],
            r.1 == old(self)@.assignments[i as int],
    {
        let agent = self.agents.remove(i);
        let assignment = self.agent_assignments.remove(i);
        proof {
            let o = old(self)@;
            let m = self@;
            assert forall|a: int| 0 <= a < m.agents.len() implies #[trigger] m.assignments[a].agent_id == m.agents[a].id by {
                if a < i {
                } else {
                    assert(o.assignments[a + 1].agent_id == o.agents[a + 1].id);
                }
            }
            assert forall|a: int, b: int| 0 <= a < b < m.agents.len() implies m.agents[a].id != m.agents[b].id by {
                let a1 = if a < i { a } else { a + 1 };
                let b1 = if b < i { b } else { b + 1 };
                assert(o.agents[a1].id != o.agents[b1].id);
            }
            assert forall|a: int, b: int| 0 <= a < b < m.assignments.len()
                implies m.assignments[a].streamer@ != m.assignments[b].streamer@ by {
                let a1 = if a < i { a } else { a + 1 };
                let b1 = if b < i { b } else { b + 1 };
                assert(o.assignments[a1].streamer@ != o.assignments[b1].streamer@);
            }
        }
        (agent, assignment)
    }

    /// Deregisters an agent and its assignment and hands the agent back, so that
    /// the caller can end its polling loop and release its browser instance. An
    /// unknown id changes nothing and gives `None`.
    pub fn stop_agent(&mut self, agent_id: AgentId) -> (r: Option<ScrapingAgent>)
        requires
            old(self)@.wf(),
        ensures
            final(self)@.wf(),
            !old(self)@.has_agent(agent_id) ==> r is None && final(self)@ == old(self)@,
            old(self)@.has_agent(agent_id) ==> exists|i: int| {
                &&& 0 <= i < old(self)@.agents.len()
                &&& old(self)@.agents[i].id == agent_id
                &&& r == Some(old(self)@.agents[i])
                &&& final(self)@ == old(self)@.remove_at(i)
            },
            !final(self)@.has_agent(agent_id),
    {
        match self.find_agent(agent_id) {
            None => None,
            Some(i) => {
                let ghost o = self@;
                let (agent, _assignment) = self.remove_entry(i);
                proof {
                    assert forall|k: int| 0 <= k < self@.agents.len() implies self@.agents[k].id != agent_id by {
                        let k1 = if k < i { k } else { k + 1 };
                        assert(o.agents[k1].id != o.agents[i as int].id);
                    }
                }
                Some(agent)
            },
        }
    }

    /// Deregisters every agent and hands them all back, in registration order.
    pub fn stop_all_agents(&mut self) -> (r: Vec<ScrapingAgent>)
        requires
            old(self)@.wf(),
        ensures
            final(self)@.wf(),
            r@ == old(self)@.agents,
            final(self)@ == (OrchestratorModel { agents: Seq::empty(), assignments: Seq::empty(), ..old(self)@ }),
    {
        let mut agents: Vec<ScrapingAgent> = Vec::new();
        std::mem::swap(&mut agents, &mut self.agents);
        self.agent_assignments = Vec::new();
        agents
    }

    /// First step of a restart: deregisters the agent and hands it back with its
    /// assignment, whose retry counter has gone up by one (saturating) and whose
    /// last failure is `now`. The caller stops the old agent, starts a
    /// replacement for the same streamer, and finishes with `complete_restart`.
    /// An unknown id fails with `AgentError` and changes nothing.
    pub fn restart_agent(&mut self, agent_id: AgentId, now: u64) -> (r: Result<RestartTicket, ScrapingError>)
        requires
            old(self)@.wf(),
        ensures
            final(self)@.wf(),
            !old(self)@.has_agent(agent_id) ==> (r matches Err(ScrapingError::AgentError(m)) && m@ == "Agent not found for restart"@)
                && final(self)@ == old(self)@,
            old(self)@.has_agent(agent_id) ==> exists|i: int| {
                &&& 0 <= i < old(self)@.agents.len()
                &&& old(self)@.agents[i].id == agent_id
                &&& r == Ok::<RestartTicket, ScrapingError>(RestartTicket {
                    retired: old(self)@.agents[i],
                    assignment: retried(old(self)@.assignments[i], now),
                })
                &&& final(self)@ == old(self)@.remove_at(i)
            },
    {
        match self.find_agent(agent_id) {
            None => Err(ScrapingError::AgentError(String::from_str("Agent not found for restart"))),
            Some(i) => {
                let (retired, mut assignment) = self.remove_entry(i);
                assignment.retry_attempts = assignment.retry_attempts.saturating_add(1);
                assignment.last_failure = Some(now);
                Ok(RestartTicket { retired, assignment })
            },
        }
    }

    /// Last step of a restart: registers the replacement `agent` under the
    /// pending assignment, given the outcome of starting it. Fails, changing
    /// nothing, as `spawn_agent` does, and also with `AgentError` when the
    /// replacement has the retired agent's id.
    pub fn complete_restart(
        &mut self,
        pending: AgentAssignment,
        agent: ScrapingAgent,
        started: Result<(), ScrapingError>,
    ) -> (r: Result<AgentId, ScrapingError>)
        requires
            old(self)@.wf(),
        ensures
            final(self)@.wf(),
            old(self)@.agents.len() >= old(self)@.max_concurrent ==> r matches Err(ScrapingError::ResourceLimit(_)),
            old(self)@.agents.len() < old(self)@.max_concurrent && started is Err ==> r == Err::<AgentId, ScrapingError>(started->Err_0),
            r is Ok <==> started is Ok && agent.id != pending.agent_id && old(self)@.can_register(agent.id, pending.streamer@),
            r is Err ==> final(self)@ == old(self)@,
            r is Ok ==> r == Ok::<AgentId, ScrapingError>(agent.id)
                && final(self)@ == old(self)@.register(agent, rekeyed(pending, agent.id)),
    {
        self.check_capacity()?;
        if let Err(e) = started {
            return Err(e);
        }
        if agent.id == pending.agent_id || self.find_agent(agent.id).is_some()
            || self.streamer_assigned(pending.streamer.as_str()) {
            return Err(ScrapingError::AgentError(String::from_str("Replacement agent cannot be registered")));
        }
        let id = agent.id;
        let assignment = AgentAssignment { agent_id: id, ..pending };
        self.register(agent, assignment);
        Ok(id)
    }

    /// Whether a name is among the configured streamers.
    fn configured(&self, name: &str) -> (r: bool)
        ensures
            r == self@.config.streamer_names().contains(name@),
    {
        let ghost names = self@.config.streamer_names();
        let mut i: usize = 0;
        while i < self.config.streamers.len()
            invariant
                i <= self.config.streamers@.len(),
                names == self@.config.streamer_names(),
                names.len() == self.config.streamers@.len(),
                forall|j: int| 0 <= j < i ==> names[j] != name@,
            decreases self.config.streamers@.len() - i,
        {
            if same_text(self.config.streamers[i].as_str(), name) {
                assert(names[i as int] == name@);
                return true;
            }
            i = i + 1;
        }
        false
    }

    /// First step of reconciling the configured streamers with the registry:
    /// the agents whose streamer is no longer configured, to be stopped. The
    /// caller stops them, then starts agents step by step with `next_spawn`.
    pub fn distribute_agents(&self) -> (to_stop: Vec<AgentId>)
        requires
            self@.wf(),
        ensures
            to_stop@ == self@.planned_stops(),
    {
        let ghost m = self@;
        let ghost names = m.config.streamer_names();
        let mut to_stop: Vec<AgentId> = Vec::new();
        let mut k: usize = 0;
        while k < self.agent_assignments.len()
            invariant
                k <= m.assignments.len(),
                m == self@,
                names == m.config.streamer_names(),
                to_stop@ == stop_list(m.assignments.take(k as int), names),
            decreases m.assignments.len() - k,
        {
            assert(m.assignments.take(k + 1).drop_last() == m.assignments.take(k as int));
            if !self.configured(self.agent_assignments[k].streamer.as_str()) {
                to_stop.push(self.agent_assignments[k].agent_id);
            }
            k = k + 1;
        }
        assert(m.assignments.take(k as int) == m.assignments);
        to_stop
    }

    /// The next agent to start while reconciling, from `cursor` on (see
    /// `walk`): configured streamers that already have an agent are counted as
    /// served, and the first one without an agent is returned, at a priority
    /// equal to its position (earlier is higher), with the cursor moved past it.
    /// The walk ends when every configured streamer has been looked at or the
    /// configuration's `max_concurrent` streamers are served. After starting
    /// the agent, the caller records the outcome with
    /// `DistributionCursor::record_spawn`, so that only successful starts count.
    pub fn next_spawn(&self, cursor: DistributionCursor) -> (r: (DistributionCursor, Option<SpawnRequest>))
        ensures
            ({
                let names = self@.config.streamer_names();
                let w = walk(names, cursor.next_index as nat, cursor.served as nat,
                    self@.config.agents.max_concurrent as nat, self@);
                let passed = r.0.next_index - cursor.next_index - (if r.1 is Some { 1int } else { 0int });
                &&& r.0.next_index == w.0
                &&& r.0.served == w.1
                &&& match w.2 {
                    Some(k) => r.1 matches Some(q) && q.streamer@ == names[k as int] && q.priority == (k % 256) as u8,
                    None => r.1 is None,
                }
                &&& passed >= 0
                &&& r.0.served == cursor.served + passed
                &&& forall|j: int| cursor.next_index <= j < cursor.next_index + passed ==> self@.is_assigned(#[trigger] names[j])
                &&& r.1 is None ==> r.0.next_index >= names.len() || r.0.served >= self@.config.agents.max_concurrent
                &&& r.1 matches Some(q) ==> !self@.is_assigned(q.streamer@)
            }),
    {
        let ghost names = self@.config.streamer_names();
        let limit = self.config.agents.max_concurrent;
        let n = self.config.streamers.len();
        let mut i = cursor.next_index;
        let mut count = cursor.served;
        while i < n && count < limit
            invariant
                names == self@.config.streamer_names(),
                names.len() == n,
                n == self.config.streamers@.len(),
                limit == self@.config.agents.max_concurrent,
                walk(names, i as nat, count as nat, limit as nat, self@)
                    == walk(names, cursor.next_index as nat, cursor.served as nat, limit as nat, self@),
            decreases n - i,
        {
            assert(names[i as int] == self.config.streamers@[i as int]@);
            if !self.streamer_assigned(self.config.streamers[i].as_str()) {
                let request = SpawnRequest { streamer: self.config.streamers[i].clone(), priority: (i % 256) as u8 };
                assert(walk(names, i as nat, count as nat, limit as nat, self@) == ((i + 1) as nat, count as nat, Some(i as nat)));
                assert(request.streamer@ == names[i as int]);
                proof {
                    lemma_walk_facts(names, cursor.next_index as nat, cursor.served as nat, limit as nat, self@);
                }
                return (DistributionCursor { next_index: i + 1, served: count }, Some(request));
            }
            i = i + 1;
            count = count + 1;
        }
        proof {
            lemma_walk_facts(names, cursor.next_index as nat, cursor.served as nat, limit as nat, self@);
        }
        (DistributionCursor { next_index: i, served: count }, None)
    }

    /// Position of the assignment with the numerically highest priority; among
    /// equal ones, the last.
    fn lowest_priority_position(&self) -> (r: usize)
        requires
            self@.assignments.len() > 0,
        ensures
            r < self@.assignments.len(),
            forall|j: int| 0 <= j < self@.assignments.len() ==> self@.assignments[j].priority <= self@.assignments[r as int].priority,
            forall|j: int| r < j < self@.assignments.len() ==> self@.assignments[j].priority < self@.assignments[r as int].priority,
    {
        let mut best: usize = 0;
        let mut i: usize = 1;
        while i < self.agent_assignments.len()
            invariant
                1 <= i <= self@.assignments.len(),
                best < i,
                forall|j: int| 0 <= j < i ==> self@.assignments[j].priority <= self@.assignments[best as int].priority,
                forall|j: int| best < j < i ==> self@.assignments[j].priority < self@.assignments[best as int].priority,
            decreases self@.assignments.len() - i,
        {
            if self.agent_assignments[i].priority >= self.agent_assignments[best].priority {
                best = i;
            }
            i = i + 1;
        }
        best
    }

    /// Position of the first configured streamer without an agent.
    fn first_unassigned(&self) -> (r: Option<usize>)
        ensures
            match r {
                Some(k) => k < self@.config.streamer_names().len()
                    && !self@.is_assigned(self@.config.streamer_names()[k as int])
                    && forall|j: int| 0 <= j < k ==> self@.is_assigned(#[trigger] self@.config.streamer_names()[j]),
                None => forall|j: int| 0 <= j < self@.config.streamer_names().len()
                    ==> self@.is_assigned(#[trigger] self@.config.streamer_names()[j]),
            },
    {
        let ghost names = self@.config.streamer_names();
        let mut k: usize = 0;
        while k < self.config.streamers.len()
            invariant
                names == self@.config.streamer_names(),
                names.len() == self.config.streamers@.len(),
                k <= names.len(),
                forall|j: int| 0 <= j < k ==> self@.is_assigned(#[trigger] names[j]),
            decreases names.len() - k,
        {
            assert(names[k as int] == self.config.streamers@[k as int]@);
            if !self.streamer_assigned(self.config.streamers[k].as_str()) {
                return Some(k);
            }
            k = k + 1;
        }
        None
    }

    /// The scaling decision for the current readings. Under pressure (CPU or
    /// memory above 85%) with more than one agent, the agent with the numerically
    /// highest priority is to stop. With room (CPU below 60%, memory below 70%,
    /// fewer agents than the configuration's `max_concurrent`), the first
    /// configured streamer without an agent is to get one. Otherwise nothing.
    pub fn scale_agents(&self) -> (d: ScalingDecision)
        requires
            self@.wf(),
        ensures
            ({
                let m = self@;
                let sm = m.system_metrics;
                let names = m.config.streamer_names();
                if (cpu_above(sm, 85) || memory_above(sm, 85)) && m.agents.len() > 1 {
                    exists|i: int| {
                        &&& 0 <= i < m.assignments.len()
                        &&& d == ScalingDecision::ScaleDown(m.assignments[i].agent_id)
                        &&& forall|j: int| 0 <= j < m.assignments.len() ==> m.assignments[j].priority <= m.assignments[i].priority
                        &&& forall|j: int| i < j < m.assignments.len() ==> m.assignments[j].priority < m.assignments[i].priority
                    }
                } else if cpu_below(sm, 60) && memory_below(sm, 70) && m.agents.len() < m.config.agents.max_concurrent {
                    match d {
                        ScalingDecision::ScaleUp(r) => exists|k: int| {
                            &&& 0 <= k < names.len()
                            &&& r.streamer@ == names[k]
                            &&& r.priority == (k % 256) as u8
                            &&& !m.is_assigned(names[k])
                            &&& forall|j: int| 0 <= j < k ==> m.is_assigned(#[trigger] names[j])
                        },
                        ScalingDecision::Hold => forall|j: int| 0 <= j < names.len() ==> m.is_assigned(#[trigger] names[j]),
                        ScalingDecision::ScaleDown(_) => false,
                    }
                } else {
                    d is Hold
                }
            }),
    {
        let sm = &self.system_metrics;
        if (sm.cpu_usage > 8500 || memory_exceeds(sm, 85)) && self.agents.len() > 1 {
            let i = self.lowest_priority_position();
            ScalingDecision::ScaleDown(self.agent_assignments[i].agent_id)
        } else if sm.cpu_usage < 6000 && memory_under(sm, 70) && self.agents.len() < self.config.agents.max_concurrent {
            match self.first_unassigned() {
                Some(k) => {
                    assert(self@.config.streamer_names()[k as int] == self.config.streamers@[k as int]@);
                    ScalingDecision::ScaleUp(SpawnRequest {
                        streamer: self.config.streamers[k].clone(),
                        priority: (k % 256) as u8,
                    })
                },
                None => ScalingDecision::Hold,
            }
        } else {
            ScalingDecision::Hold
        }
    }

    /// The advisory reading of the periodic scaling check: critical above 90% CPU
    /// or memory with more than one agent; headroom below 50% CPU and 60% memory
    /// with fewer agents than the configuration's `max_concurrent`.
    pub fn scaling_advice(&self) -> (a: ScalingAdvice)
        ensures
            ({
                let sm = self@.system_metrics;
                let n = self@.agents.len();
                a == if (cpu_above(sm, 90) || memory_above(sm, 90)) && n > 1 {
                    ScalingAdvice::Critical
                } else if cpu_below(sm, 50) && memory_below(sm, 60) && n < self@.config.agents.max_concurrent {
                    ScalingAdvice::Headroom
                } else {
                    ScalingAdvice::Steady
                }
            }),
    {
        let sm = &self.system_metrics;
        if (sm.cpu_usage > 9000 || memory_exceeds(sm, 90)) && self.agents.len() > 1 {
            ScalingAdvice::Critical
        } else if sm.cpu_usage < 5000 && memory_under(sm, 60) && self.agents.len() < self.config.agents.max_concurrent {
            ScalingAdvice::Headroom
        } else {
            ScalingAdvice::Steady
        }
    }

    /// The agents to restart for failing too often: more than one error per ten
    /// seconds of uptime, at clock reading `now`.
    pub fn rebalance_agents(&self, now: u64) -> (r: Vec<AgentId>)
        ensures
            r@ == ids_where(self@.agents, |a: ScrapingAgent| error_rate_too_high(a, now)),
    {
        let mut out: Vec<AgentId> = Vec::new();
        let mut i: usize = 0;
        while i < self.agents.len()
            invariant
                i <= self@.agents.len(),
                out@ == ids_where(self@.agents.take(i as int), |a: ScrapingAgent| error_rate_too_high(a, now)),
            decreases self@.agents.len() - i,
        {
            assert(self@.agents.take(i + 1).drop_last() == self@.agents.take(i as int));
            assert(self@.agents.take(i + 1).last() == self@.agents[i as int]);
            let metrics = self.agents[i].get_metrics(now);
            let secs = metrics.uptime_ms / 1000;
            let hot = secs > 0 && (metrics.error_count as u64) * 10 > secs;
            assert(hot == error_rate_too_high(self@.agents[i as int], now));
            if hot {
                out.push(self.agents[i].id);
            }
            i = i + 1;
        }
        assert(self@.agents.take(i as int) == self@.agents);
        out
    }

    /// The agents in the `Error` state, which the recovery loop restarts.
    pub fn agents_in_error(&self) -> (r: Vec<AgentId>)
        ensures
            r@ == ids_where(self@.agents, |a: ScrapingAgent| a.status is Error),
    {
        let mut out: Vec<AgentId> = Vec::new();
        let mut i: usize = 0;
        while i < self.agents.len()
            invariant
                i <= self@.agents.len(),
                out@ == ids_where(self@.agents.take(i as int), |a: ScrapingAgent| a.status is Error),
            decreases self@.agents.len() - i,
        {
            assert(self@.agents.take(i + 1).drop_last() == self@.agents.take(i as int));
            assert(self@.agents.take(i + 1).last() == self@.agents[i as int]);
            let failed = self.agents[i].status.is_error();
            
            if failed {
                out.push(self.agents[i].id);
            }
            i = i + 1;
        }
        assert(self@.agents.take(i as int) == self@.agents);
        out
    }

    /// Records one system-monitor reading (CPU in hundredths of a percent, memory
    /// in bytes, at `now`), with the number of agents and the messages they have
    /// scraped, and reports which resource alerts it raises.
    pub fn update_system_metrics(&mut self, cpu_usage: u32, memory_usage: u64, memory_total: u64, now: u64) -> (r: ResourceAlerts)
        requires
            old(self)@.wf(),
        ensures
            final(self)@ == (OrchestratorModel { system_metrics: final(self)@.system_metrics, ..old(self)@ }),
            final(self)@.system_metrics == (SystemMetrics {
                cpu_usage,
                memory_usage,
                memory_total,
                active_agents: old(self)@.agents.len() as usize,
                total_messages_scraped: messages_total(old(self)@.agents),
                timestamp: now,
            }),
            r == (ResourceAlerts {
                high_cpu: cpu_above(final(self)@.system_metrics, 80),
                high_memory: memory_above(final(self)@.system_metrics, 85),
            }),
    {
        let mut total: u64 = 0;
        let mut i: usize = 0;
        while i < self.agents.len()
            invariant
                i <= self@.agents.len(),
                total == messages_total(self@.agents.take(i as int)),
            decreases self@.agents.len() - i,
        {
            assert(self@.agents.take(i + 1).drop_last() == self@.agents.take(i as int));
            total = total.saturating_add(self.agents[i].metrics.messages_scraped);
            i = i + 1;
        }
        assert(self@.agents.take(i as int) == self@.agents);
        self.system_metrics = SystemMetrics {
            cpu_usage,
            memory_usage,
            memory_total,
            active_agents: self.agents.len(),
            total_messages_scraped: total,
            timestamp: now,
        };
        ResourceAlerts {
            high_cpu: cpu_usage > 8000,
            high_memory: memory_exceeds(&self.system_metrics, 85),
        }
    }

    /// Whether two lists of names are the same, in the same order.
    fn same_names(a: &Vec<String>, b: &Vec<String>) -> (r: bool)
        ensures
            r == (names_of(a@) == names_of(b@)),
    {
        if a.len() != b.len() {
            assert(names_of(a@).len() != names_of(b@).len());
            return false;
        }
        let mut i: usize = 0;
        while i < a.len()
            invariant
                a@.len() == b@.len(),
                i <= a@.len(),
                forall|j: int| 0 <= j < i ==> a@[j]@ == b@[j]@,
            decreases a@.len() - i,
        {
            if !same_text(a[i].as_str(), b[i].as_str()) {
                assert(names_of(a@)[i as int] != names_of(b@)[i as int]);
                return false;
            }
            i = i + 1;
        }
        assert(names_of(a@) =~= names_of(b@));
        true
    }

    /// Replaces the configuration. Returns whether the streamer list changed, in
    /// which case the caller redistributes the agents; a change of anything else
    /// (the agent ceiling included) asks for no redistribution. The registry's own
    /// ceiling stays the one it was created with.
    pub fn update_config(&mut self, new_config: Config) -> (redistribute: bool)
        ensures
            redistribute == (old(self)@.config.streamer_names() != new_config.streamer_names()),
            final(self)@ == (OrchestratorModel { config: new_config, ..old(self)@ }),
    {
        let changed = !Self::same_names(&self.config.streamers, &new_config.streamers);
        self.config = new_config;
        changed
    }

    /// The current configuration.
    pub fn config(&self) -> (r: &Config)
        ensures
            *r == self@.config,
    {
        &self.config
    }

    /// The ceiling of concurrent agents.
    pub fn max_concurrent(&self) -> (r: usize)
        ensures
            r == self@.max_concurrent,
    {
        self.max_concurrent
    }

    /// Counts one more orchestration error (saturating).
    pub fn increment_error_count(&mut self)
        ensures
            final(self)@ == (OrchestratorModel { error_count: old(self)@.error_count.saturating_add(1), ..old(self)@ }),
    {
        self.error_count = self.error_count.saturating_add(1);
    }

    /// The registered agent with this id, if any.
    pub fn get_agent(&self, agent_id: AgentId) -> (r: Option<&ScrapingAgent>)
        ensures
            match r {
                Some(a) => a.id == agent_id && self@.agents.contains(*a),
                None => !self@.has_agent(agent_id),
            },
    {
        match self.find_agent(agent_id) {
            Some(i) => Some(&self.agents[i]),
            None => None,
        }
    }

    /// The status of the agent with this id, if it is registered.
    pub fn get_agent_status(&self, agent_id: AgentId) -> (r: Option<AgentStatus>)
        ensures
            match r {
                Some(s) => exists|i: int| 0 <= i < self@.agents.len() && self@.agents[i].id == agent_id && s == self@.agents[i].status,
                None => !self@.has_agent(agent_id),
            },
    {
        match self.find_agent(agent_id) {
            Some(i) => Some(self.agents[i].get_status()),
            None => None,
        }
    }

    /// A metrics snapshot of the agent with this id at clock reading `now`, if it
    /// is registered.
    pub fn get_agent_metrics(&self, agent_id: AgentId, now: u64) -> (r: Option<AgentMetrics>)
        ensures
            match r {
                Some(m) => exists|i: int| {
                    &&& 0 <= i < self@.agents.len()
                    &&& self@.agents[i].id == agent_id
                    &&& m == (AgentMetrics {
                        uptime_ms: self@.agents[i].uptime_at(now),
                        status: self@.agents[i].status,
                        ..self@.agents[i].metrics
                    })
                },
                None => !self@.has_agent(agent_id),
            },
    {
        match self.find_agent(agent_id) {
            Some(i) => Some(self.agents[i].get_metrics(now)),
            None => None,
        }
    }

    /// The ids of the registered agents, in registry order.
    pub fn get_active_agents(&self) -> (r: Vec<AgentId>)
        ensures
            r@ == self@.agents.map_values(|a: ScrapingAgent| a.id),
    {
        let mut out: Vec<AgentId> = Vec::new();
        let mut i: usize = 0;
        while i < self.agents.len()
            invariant
                i <= self@.agents.len(),
                out@ == self@.agents.take(i as int).map_values(|a: ScrapingAgent| a.id),
            decreases self@.agents.len() - i,
        {
            out.push(self.agents[i].id);
            i = i + 1;
            assert(out@ =~= self@.agents.take(i as int).map_values(|a: ScrapingAgent| a.id));
        }
        assert(self@.agents.take(i as int) == self@.agents);
        out
    }

    /// Copies of the assignments, in registry order.
    pub fn get_assignments(&self) -> (r: Vec<AgentAssignment>)
        ensures
            r@ == self@.assignments,
    {
        let mut out: Vec<AgentAssignment> = Vec::new();
        let mut i: usize = 0;
        while i < self.agent_assignments.len()
            invariant
                i <= self@.assignments.len(),
                out@ == self@.assignments.take(i as int),
            decreases self@.assignments.len() - i,
        {
            out.push(self.agent_assignments[i].duplicate());
            i = i + 1;
            assert(out@ =~= self@.assignments.take(i as int));
        }
        assert(self@.assignments.take(i as int) == self@.assignments);
        out
    }

    /// Metrics snapshots of every agent at clock reading `now`, in registry order.
    pub fn get_agent_performance_metrics(&self, now: u64) -> (r: Vec<(AgentId, AgentMetrics)>)
        ensures
            r@.len() == self@.agents.len(),
            forall|i: int| 0 <= i < r@.len() ==> #[trigger] r@[i] == (self@.agents[i].id, AgentMetrics {
                uptime_ms: self@.agents[i].uptime_at(now),
                status: self@.agents[i].status,
                ..self@.agents[i].metrics
            }),
    {
        let mut out: Vec<(AgentId, AgentMetrics)> = Vec::new();
        let mut i: usize = 0;
        while i < self.agents.len()
            invariant
                i <= self@.agents.len(),
                out@.len() == i,
                forall|k: int| 0 <= k < i ==> #[trigger] out@[k] == (self@.agents[k].id, AgentMetrics {
                    uptime_ms: self@.agents[k].uptime_at(now),
                    status: self@.agents[k].status,
                    ..self@.agents[k].metrics
                }),
            decreases self@.agents.len() - i,
        {
            out.push((self.agents[i].id, self.agents[i].get_metrics(now)));
            i = i + 1;
        }
        out
    }

    /// A status snapshot at clock reading `now`.
    pub fn get_status(&self, now: u64) -> (r: OrchestratorStatus)
        ensures
            r.active_agents == self@.agents.len(),
            r.total_agents_spawned == self@.total_agents_spawned,
            r.system_metrics == self@.system_metrics,
            r.agent_assignments@ == self@.assignments,
            r.error_count == self@.error_count,
            r.uptime_ms == now.saturating_sub(self@.start_time),
    {
        OrchestratorStatus {
            active_agents: self.agents.len(),
            total_agents_spawned: self.total_agents_spawned,
            system_metrics: self.system_metrics,
            agent_assignments: self.get_assignments(),
            error_count: self.error_count,
            uptime_ms: now.saturating_sub(self.start_time),
        }
    }

    /// Change detection for the page of the agent with this id (see
    /// `ScrapingAgent::html_changed`); an unknown id reports no change.
    pub fn html_changed(&mut self, agent_id: AgentId, html: &str) -> (changed: bool)
        requires
            old(self)@.wf(),
        ensures
            final(self)@.wf(),
            final(self)@.agents.len() == old(self)@.agents.len(),
            !old(self)@.has_agent(agent_id) ==> !changed && final(self)@ == old(self)@,
            forall|i: int| 0 <= i < old(self)@.agents.len() && old(self)@.agents[i].id != agent_id
                ==> final(self)@.agents[i] == old(self)@.agents[i],
            forall|i: int| 0 <= i < old(self)@.agents.len() && old(self)@.agents[i].id == agent_id ==> {
                &&& changed == crate::monitor::page_changed(old(self)@.agents[i].last_html_hash@, html@)
                &&& final(self)@.agents[i] == (ScrapingAgent {
                    last_html_hash: final(self)@.agents[i].last_html_hash,
                    ..old(self)@.agents[i]
                })
                &&& final(self)@.agents[i].last_html_hash@ == crate::monitor::md5_hex_of(html@)
            },
            final(self)@ == (OrchestratorModel { agents: final(self)@.agents, ..old(self)@ }),
    {
        match self.find_agent(agent_id) {
            None => false,
            Some(i) => {
                let ghost o = self@;
                let mut agent = self.agents.remove(i);
                let changed = agent.html_changed(html);
                self.agents.insert(i, agent);
                proof {
                    assert forall|k: int| 0 <= k < o.agents.len() && o.agents[k].id == agent_id implies k == i by {
                        if k != i {
                            if k < i { assert(o.agents[k].id != o.agents[i as int].id); }
                            else { assert(o.agents[i as int].id != o.agents[k].id); }
                        }
                    }
                    assert forall|a: int, b: int| 0 <= a < b < self@.agents.len() implies self@.agents[a].id != self@.agents[b].id by {
                        assert(o.agents[a].id != o.agents[b].id);
                    }
                    assert forall|a: int| 0 <= a < self@.agents.len() implies #[trigger] self@.assignments[a].agent_id == self@.agents[a].id by {
                        assert(o.assignments[a].agent_id == o.agents[a].id);
                    }
                }
                changed
            },
        }
    }

    /// One tick of the polling loop of the agent with this id (see
    /// `ScrapingAgent::record_extraction`); an unknown id ends the loop.
    pub fn record_extraction(&mut self, agent_id: AgentId, poll: PollResult, now: u64, latency_ms: u64) -> (action: MonitorAction)
        requires
            old(self)@.wf(),
        ensures
            final(self)@.wf(),
            final(self)@.agents.len() == old(self)@.agents.len(),
            !old(self)@.has_agent(agent_id) ==> action == MonitorAction::Exit && final(self)@ == old(self)@,
            forall|i: int| 0 <= i < old(self)@.agents.len() && old(self)@.agents[i].id != agent_id
                ==> final(self)@.agents[i] == old(self)@.agents[i],
            forall|i: int| 0 <= i < old(self)@.agents.len() && old(self)@.agents[i].id == agent_id
                ==> extraction_step(old(self)@.agents[i], final(self)@.agents[i], poll, now, latency_ms, action),
            final(self)@ == (OrchestratorModel { agents: final(self)@.agents, ..old(self)@ }),
    {
        match self.find_agent(agent_id) {
            None => MonitorAction::Exit,
            Some(i) => {
                let ghost o = self@;
                let mut agent = self.agents.remove(i);
                let action = agent.record_extraction(poll, now, latency_ms);
                self.agents.insert(i, agent);
                proof {
                    assert forall|k: int| 0 <= k < o.agents.len() && o.agents[k].id == agent_id implies k == i by {
                        if k != i {
                            if k < i { assert(o.agents[k].id != o.agents[i as int].id); }
                            else { assert(o.agents[i as int].id != o.agents[k].id); }
                        }
                    }
                    assert forall|a: int, b: int| 0 <= a < b < self@.agents.len() implies self@.agents[a].id != self@.agents[b].id by {
                        assert(o.agents[a].id != o.agents[b].id);
                    }
                    assert forall|a: int| 0 <= a < self@.agents.len() implies #[trigger] self@.assignments[a].agent_id == self@.agents[a].id by {
                        assert(o.assignments[a].agent_id == o.agents[a].id);
                    }
                }
                action
            },
        }
    }

    /// A random pause before starting an agent, from 100 ms to 2 s, so that agents
    /// do not start in step.
    pub fn startup_delay_ms() -> (r: u64)
        ensures
            100 <= r <= 2000,
    {
        random_between(100, 2000)
    }
}

/// A restart keeps the streamer and the priority, counts exactly one more retry,
/// and moves the assignment to a different agent: taking out the agent at
/// position `i` leaves room for a replacement with any id not registered before,
/// and the assignment it gets differs from the old one in its agent id and in one
/// more retry (and in the failure time) only.
pub proof fn lemma_restart_keeps_assignment(m: OrchestratorModel, i: int, now: u64, replacement: AgentId)
    requires
        m.wf(),
        0 <= i < m.agents.len(),
        m.assignments[i].retry_attempts < u32::MAX,
    ensures
        ({
            let old_a = m.assignments[i];
            let pending = retried(old_a, now);
            let m1 = m.remove_at(i);
            let new_a = rekeyed(pending, replacement);
            &&& !m.has_agent(replacement) ==> replacement != pending.agent_id && m1.can_register(replacement, pending.streamer@)
            &&& new_a.streamer == old_a.streamer
            &&& new_a.priority == old_a.priority
            &&& new_a.retry_attempts == old_a.retry_attempts + 1
            &&& replacement != pending.agent_id ==> new_a.agent_id != old_a.agent_id
        }),
{
    let old_a = m.assignments[i];
    let pending = retried(old_a, now);
    let m1 = m.remove_at(i);
    if !m.has_agent(replacement) {
        assert(m.agents[i].id == old_a.agent_id);
        assert forall|k: int| 0 <= k < m1.agents.len() implies m1.agents[k].id != replacement by {
            let k1 = if k < i { k } else { k + 1 };
            assert(m.agents[k1].id != replacement);
        }
        assert forall|k: int| 0 <= k < m1.assignments.len() implies m1.assignments[k].streamer@ != pending.streamer@ by {
            let k1 = if k < i { k } else { k + 1 };
            if k1 < i {
                assert(m.assignments[k1].streamer@ != m.assignments[i].streamer@);
            } else {
                assert(m.assignments[i].streamer@ != m.assignments[k1].streamer@);
            }
        }
    }
}

/// A well-formed registry never holds more agents than its ceiling, and each
/// streamer is assigned to at most one agent.
pub proof fn lemma_registry_bounds(m: OrchestratorModel, streamer: Seq<char>)
    requires
        m.wf(),
    ensures
        m.agents.len() <= m.max_concurrent,
        forall|i: int, j: int|
            0 <= i < m.assignments.len() && 0 <= j < m.assignments.len() && m.assignments[i].streamer@ == streamer
                && m.assignments[j].streamer@ == streamer ==> i == j,
{
    assert forall|i: int, j: int|
        0 <= i < m.assignments.len() && 0 <= j < m.assignments.len() && m.assignments[i].streamer@ == streamer
            && m.assignments[j].streamer@ == streamer implies i == j by {
        if i < j {
            assert(m.assignments[i].streamer@ != m.assignments[j].streamer@);
        } else if j < i {
            assert(m.assignments[j].streamer@ != m.assignments[i].streamer@);
        }
    }
}

} // verus!
