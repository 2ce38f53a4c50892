use vstd::prelude::*;
use crate::agent::AgentId;
use crate::orchestrator::{AgentAssignment, OrchestratorModel};

verus! {

/// A request to start an agent for `streamer` at `priority`.
#[derive(Debug, Clone)]
pub struct SpawnRequest {
    pub streamer: String,
    pub priority: u8,
}

/// Where a reconciliation stands: the next configured position to look at and
/// how many configured streamers have been served so far (they had an agent,
/// or one was started for them).
#[derive(Debug, Clone, Copy, PartialEq, Eq, Structural)]
pub struct DistributionCursor {
    pub next_index: usize,
    pub served: usize,
}

impl DistributionCursor {
    /// The cursor a reconciliation starts from.
    pub fn start() -> (r: DistributionCursor)
        ensures
            r == (DistributionCursor { next_index: 0, served: 0 }),
    {
        DistributionCursor { next_index: 0, served: 0 }
    }

    /// The cursor after starting the agent `next_spawn` asked for: a successful
    /// start serves one more streamer (saturating); a failed one serves none, so
    /// a later streamer may take its place.
    pub fn record_spawn(self, succeeded: bool) -> (r: DistributionCursor)
        ensures
            r == (DistributionCursor {
                served: if succeeded { self.served.saturating_add(1) } else { self.served },
                ..self
            }),
    {
        if succeeded {
            DistributionCursor { served: self.served.saturating_add(1), ..self }
        } else {
            self
        }
    }
}

/// The agents whose streamer is no longer configured, in registry order.
pub open spec fn stop_list(assignments: Seq<AgentAssignment>, names: Seq<Seq<char>>) -> Seq<AgentId>
    decreases assignments.len(),
{
    if assignments.len() == 0 {
        Seq::empty()
    } else {
        let rest = stop_list(assignments.drop_last(), names);
        if names.contains(assignments.last().streamer@) {
            rest
        } else {
            rest.push(assignments.last().agent_id)
        }
    }
}

/// The walk of a reconciliation over the configured names from position `i`
/// with `count` streamers served: while names remain and fewer than `limit`
/// are served, a name that has an agent in `m` counts as served; the first one
/// without an agent is where the next agent starts. The result is the cursor
/// after the walk (position, served) and that position, if any.
pub open spec fn walk(names: Seq<Seq<char>>, i: nat, count: nat, limit: nat, m: OrchestratorModel) -> (nat, nat, Option<nat>)
    decreases names.len() - i,
{
    if i >= names.len() || count >= limit {
        (i, count, None)
    } else if m.is_assigned(names[i as int]) {
        walk(names, i + 1, count + 1, limit, m)
    } else {
        (i + 1, count, Some(i))
    }
}

/// Nothing is to be stopped when every assignment is for a configured name.
pub proof fn lemma_stop_list_empty(assignments: Seq<AgentAssignment>, names: Seq<Seq<char>>)
    requires
        forall|k: int| 0 <= k < assignments.len() ==> names.contains(#[trigger] assignments[k].streamer@),
    ensures
        stop_list(assignments, names).len() == 0,
    decreases assignments.len(),
{
    if assignments.len() > 0 {
        let rest = assignments.drop_last();
        assert forall|k: int| 0 <= k < rest.len() implies names.contains(#[trigger] rest[k].streamer@) by {
            assert(rest[k] == assignments[k]);
        }
        assert(names.contains(assignments[assignments.len() - 1].streamer@));
        lemma_stop_list_empty(rest, names);
    }
}

/// What a walk does: it only moves forward; every name it passes over without
/// stopping there has an agent and counts as served; it stops at a name without
/// an agent (the last one it moved past), or ends where no names remain or
/// `limit` are served.
pub proof fn lemma_walk_facts(names: Seq<Seq<char>>, i: nat, count: nat, limit: nat, m: OrchestratorModel)
    ensures
        ({
            let w = walk(names, i, count, limit, m);
            let passed = w.0 - i - (if w.2 is Some { 1int } else { 0int });
            &&& w.0 >= i
            &&& passed >= 0
            &&& w.1 == count + passed
            &&& forall|j: int| i <= j < i + passed ==> m.is_assigned(#[trigger] names[j])
            &&& w.2 is None ==> w.0 >= names.len() || w.1 >= limit
            &&& w.2 matches Some(k) ==> k == w.0 - 1 && k < names.len() && !m.is_assigned(names[k as int])
        }),
    decreases names.len() - i,
{
    if i >= names.len() || count >= limit {
    } else if m.is_assigned(names[i as int]) {
        lemma_walk_facts(names, i + 1, count + 1, limit, m);
    }
}

/// A walk that starts at a position `j` with `j` streamers served, over names
/// that all have an agent up to position `i`, where a walk with `i` served ends
/// at once, starts no agent.
pub proof fn lemma_walk_past_served(names: Seq<Seq<char>>, j: nat, i: nat, limit: nat, m: OrchestratorModel)
    requires
        j <= i <= names.len(),
        i >= names.len() || i >= limit,
        forall|k: int| 0 <= k < i ==> m.is_assigned(#[trigger] names[k]),
    ensures
        walk(names, j, j, limit, m).2 is None,
    decreases i - j,
{
    if j < i && j < limit {
        lemma_walk_past_served(names, j + 1, i, limit, m);
    }
}

/// Reconciling is idempotent. Suppose a reconciliation of the registry `m` ran
/// to its end under `m`'s configuration: the agents of streamers no longer
/// configured were stopped (every assignment is for a configured streamer), and
/// its walk reached the cursor `last`, where it ends, with every start
/// successful (`last.served == last.next_index`), so that every streamer it
/// walked past has an agent. Then reconciling `m` again stops nothing, and its
/// first step starts nothing.
pub proof fn lemma_distribution_idempotent(m: OrchestratorModel, last: DistributionCursor)
    requires
        m.wf(),
        forall|k: int| 0 <= k < m.assignments.len() ==> m.config.streamer_names().contains(#[trigger] m.assignments[k].streamer@),
        last.served == last.next_index,
        last.next_index <= m.config.streamer_names().len(),
        last.next_index >= m.config.streamer_names().len() || last.served >= m.config.agents.max_concurrent,
        forall|k: int| 0 <= k < last.next_index ==> m.is_assigned(#[trigger] m.config.streamer_names()[k]),
    ensures
        m.planned_stops().len() == 0,
        walk(m.config.streamer_names(), 0, 0, m.config.agents.max_concurrent as nat, m).2 is None,
{
    lemma_stop_list_empty(m.assignments, m.config.streamer_names());
    lemma_walk_past_served(
        m.config.streamer_names(),
        0,
        last.next_index as nat,
        m.config.agents.max_concurrent as nat,
        m,
    );
}

} // verus!
