use chat_agents::agent::{AgentId, AgentStatus, DelayRange, ScrapingAgent};
use chat_agents::config::Config;
use chat_agents::error::ScrapingError;
use chat_agents::monitor::PollResult;
use chat_agents::distribution::DistributionCursor;
use chat_agents::orchestrator::{AgentOrchestrator, ResourceAlerts, ScalingAdvice, ScalingDecision};

fn config(max: usize, streamers: &[&str]) -> Config {
    let mut c = Config::default();
    c.agents.max_concurrent = max;
    c.streamers = streamers.iter().map(|s| s.to_string()).collect();
    c
}

fn started_agent(streamer: &str) -> ScrapingAgent {
    let mut a = ScrapingAgent::new(DelayRange { min_ms: 1000, max_ms: 5000 });
    a.start(streamer, 0);
    a.initialize_browser(Ok(1)).unwrap();
    a.complete_start(Some(Ok(()))).unwrap();
    a
}

fn spawn(o: &mut AgentOrchestrator, streamer: &str, priority: u8) -> Result<AgentId, ScrapingError> {
    o.spawn_agent(started_agent(streamer), streamer, priority, Ok(()), 0)
}

/// Runs a reconciliation; `fails` names the streamers whose agents fail to
/// start. Returns the agents stopped and the streamers whose start was tried.
fn reconcile(o: &mut AgentOrchestrator, fails: &[&str]) -> (Vec<AgentId>, Vec<(String, u8)>) {
    let to_stop = o.distribute_agents();
    for id in &to_stop {
        o.stop_agent(*id);
    }
    let mut tried = Vec::new();
    let mut cursor = DistributionCursor::start();
    loop {
        let (next, request) = o.next_spawn(cursor);
        cursor = next;
        let Some(r) = request else { break };
        tried.push((r.streamer.clone(), r.priority));
        let started = if fails.contains(&r.streamer.as_str()) {
            Err(ScrapingError::BrowserError("launch failed".to_string()))
        } else {
            Ok(())
        };
        let result = o.spawn_agent(started_agent(&r.streamer), &r.streamer, r.priority, started, 0);
        if result.is_err() {
            o.increment_error_count();
        }
        cursor = cursor.record_spawn(result.is_ok());
    }
    (to_stop, tried)
}

fn carry_out(o: &mut AgentOrchestrator) -> (Vec<AgentId>, Vec<(String, u8)>) {
    reconcile(o, &[])
}

fn streamer_of(o: &AgentOrchestrator, id: AgentId) -> String {
    o.get_assignments().into_iter().find(|a| a.agent_id == id).unwrap().streamer
}

#[test]
fn spawns_stop_at_capacity() {
    let mut o = AgentOrchestrator::new(config(2, &["a", "b", "c"]), 0);
    spawn(&mut o, "a", 0).unwrap();
    spawn(&mut o, "b", 1).unwrap();
    let before = o.get_active_agents();
    let r = spawn(&mut o, "c", 2);
    assert!(matches!(r, Err(ScrapingError::ResourceLimit(_))));
    assert_eq!(o.get_active_agents(), before);
    assert_eq!(o.get_status(0).total_agents_spawned, 2);
    assert!(o.check_capacity().is_err());
}

#[test]
fn one_agent_per_streamer() {
    let mut o = AgentOrchestrator::new(config(5, &["a"]), 0);
    spawn(&mut o, "a", 0).unwrap();
    assert!(matches!(spawn(&mut o, "a", 0), Err(ScrapingError::AgentError(_))));
    assert_eq!(o.get_active_agents().len(), 1);
}

#[test]
fn failed_start_is_not_registered() {
    let mut o = AgentOrchestrator::new(config(5, &["a"]), 0);
    let r = o.spawn_agent(started_agent("a"), "a", 0, Err(ScrapingError::AgentError("Agent startup timed out for a".to_string())), 0);
    assert!(matches!(r, Err(ScrapingError::AgentError(_))));
    assert!(o.get_active_agents().is_empty());
    assert_eq!(o.get_status(0).total_agents_spawned, 0);
}

#[test]
fn spawn_records_a_fresh_assignment() {
    let mut o = AgentOrchestrator::new(config(5, &["teststreamer"]), 0);
    let agent = started_agent("teststreamer");
    let id = agent.id;
    assert_eq!(o.spawn_agent(agent, "teststreamer", 1, Ok(()), 1234).unwrap(), id);
    let a = &o.get_assignments()[0];
    assert_eq!(a.streamer, "teststreamer");
    assert_eq!(a.priority, 1);
    assert_eq!(a.assigned_at, 1234);
    assert_eq!(a.retry_attempts, 0);
    assert_eq!(a.last_failure, None);
    assert_eq!(o.get_agent_status(id), Some(AgentStatus::Running));
}

#[test]
fn distribution_takes_earliest_streamers() {
    let mut o = AgentOrchestrator::new(config(2, &["a", "b", "c"]), 0);
    let (_, tried) = carry_out(&mut o);
    assert_eq!(tried.len(), 2);
    let ids = o.get_active_agents();
    assert_eq!(ids.len(), 2);
    let mut names: Vec<String> = ids.iter().map(|id| streamer_of(&o, *id)).collect();
    names.sort();
    assert_eq!(names, vec!["a", "b"]);
    let priorities: Vec<u8> = o.get_assignments().iter().map(|a| a.priority).collect();
    assert_eq!(priorities, vec![0, 1]);
}

#[test]
fn distribution_is_idempotent() {
    let mut o = AgentOrchestrator::new(config(3, &["a", "b", "c", "d"]), 0);
    spawn(&mut o, "gone", 7).unwrap();
    spawn(&mut o, "c", 2).unwrap();
    let (stopped, tried) = carry_out(&mut o);
    assert_eq!(stopped.len(), 1);
    assert_eq!(tried.len(), 2);
    let spawned_before = o.get_status(0).total_agents_spawned;
    let (stopped, tried) = carry_out(&mut o);
    assert!(stopped.is_empty());
    assert!(tried.is_empty());
    assert_eq!(o.get_status(0).total_agents_spawned, spawned_before);
}

#[test]
fn distribution_with_repeated_names() {
    let mut o = AgentOrchestrator::new(config(5, &["a", "a", "b"]), 0);
    let (_, tried) = carry_out(&mut o);
    assert_eq!(tried, vec![("a".to_string(), 0), ("b".to_string(), 2)]);
}

#[test]
fn failed_spawn_leaves_room_for_later_streamers() {
    let mut o = AgentOrchestrator::new(config(2, &["a", "b", "c"]), 0);
    let (_, tried) = reconcile(&mut o, &["a"]);
    let names: Vec<String> = tried.into_iter().map(|t| t.0).collect();
    assert_eq!(names, vec!["a", "b", "c"]);
    assert_eq!(o.get_status(0).error_count, 1);
    let mut assigned: Vec<String> = o.get_assignments().into_iter().map(|a| a.streamer).collect();
    assigned.sort();
    assert_eq!(assigned, vec!["b", "c"]);
}

#[test]
fn restart_of_unknown_agent_is_not_found() {
    let mut o = AgentOrchestrator::new(config(2, &["a"]), 0);
    match o.restart_agent(42, 0) {
        Err(ScrapingError::AgentError(m)) => assert!(m.contains("not found for restart")),
        other => panic!("unexpected {:?}", other.is_ok()),
    }
}

#[test]
fn high_load_stops_lowest_priority_agent() {
    let mut o = AgentOrchestrator::new(config(5, &["a", "b", "c"]), 0);
    spawn(&mut o, "a", 0).unwrap();
    let c = spawn(&mut o, "c", 2).unwrap();
    spawn(&mut o, "b", 1).unwrap();
    o.update_system_metrics(9000, 90, 100, 5);
    match o.scale_agents() {
        ScalingDecision::ScaleDown(id) => {
            assert_eq!(id, c);
            assert!(o.stop_agent(id).is_some());
        }
        other => panic!("unexpected decision {:?}", other),
    }
    assert_eq!(o.get_active_agents().len(), 2);
    assert_eq!(o.get_agent_status(c), None);
}

#[test]
fn scaling_up_and_holding() {
    let mut o = AgentOrchestrator::new(config(3, &["a", "b", "c"]), 0);
    spawn(&mut o, "a", 0).unwrap();
    o.update_system_metrics(1000, 10, 100, 5);
    match o.scale_agents() {
        ScalingDecision::ScaleUp(r) => {
            assert_eq!(r.streamer, "b");
            assert_eq!(r.priority, 1);
        }
        other => panic!("unexpected decision {:?}", other),
    }
    // a single agent is never scaled down
    o.update_system_metrics(9900, 10, 100, 6);
    assert!(matches!(o.scale_agents(), ScalingDecision::Hold));
    // in between the thresholds nothing happens
    o.update_system_metrics(7000, 10, 100, 7);
    assert!(matches!(o.scale_agents(), ScalingDecision::Hold));
}

#[test]
fn system_metrics_and_alerts() {
    let mut o = AgentOrchestrator::new(config(3, &["a", "b"]), 0);
    let a = spawn(&mut o, "a", 0).unwrap();
    spawn(&mut o, "b", 1).unwrap();
    o.record_extraction(a, PollResult::Extracted(7), 10, 1);
    let alerts = o.update_system_metrics(8100, 86, 100, 99);
    assert_eq!(alerts, ResourceAlerts { high_cpu: true, high_memory: true });
    let m = o.get_status(1000).system_metrics;
    assert_eq!(m.active_agents, 2);
    assert_eq!(m.total_messages_scraped, 7);
    assert_eq!(m.timestamp, 99);
    let alerts = o.update_system_metrics(8000, 85, 100, 100);
    assert_eq!(alerts, ResourceAlerts { high_cpu: false, high_memory: false });
    o.update_system_metrics(9500, 10, 100, 101);
    assert_eq!(o.scaling_advice(), ScalingAdvice::Critical);
    o.update_system_metrics(1000, 10, 100, 102);
    assert_eq!(o.scaling_advice(), ScalingAdvice::Headroom);
}

#[test]
fn restart_keeps_streamer_and_priority() {
    let mut o = AgentOrchestrator::new(config(3, &["a", "b"]), 0);
    spawn(&mut o, "a", 0).unwrap();
    let old = spawn(&mut o, "b", 1).unwrap();
    let ticket = o.restart_agent(old, 500).unwrap();
    assert_eq!(ticket.retired.id, old);
    assert_eq!(ticket.assignment.retry_attempts, 1);
    assert_eq!(ticket.assignment.last_failure, Some(500));
    assert_eq!(o.get_active_agents().len(), 1);
    let replacement = started_agent("b");
    let new_id = o.complete_restart(ticket.assignment, replacement, Ok(())).unwrap();
    assert_ne!(new_id, old);
    let a = o.get_assignments().into_iter().find(|a| a.agent_id == new_id).unwrap();
    assert_eq!(a.streamer, "b");
    assert_eq!(a.priority, 1);
    assert_eq!(a.retry_attempts, 1);
    assert!(matches!(o.restart_agent(old, 0), Err(ScrapingError::AgentError(_))));
}

#[test]
fn restart_rejects_the_retired_id() {
    let mut o = AgentOrchestrator::new(config(3, &["a"]), 0);
    let old = spawn(&mut o, "a", 0).unwrap();
    let ticket = o.restart_agent(old, 1).unwrap();
    let r = o.complete_restart(ticket.assignment, ticket.retired, Ok(()));
    assert!(matches!(r, Err(ScrapingError::AgentError(_))));
    assert!(o.get_active_agents().is_empty());
}

#[test]
fn stopping_unknown_agent_changes_nothing() {
    let mut o = AgentOrchestrator::new(config(3, &["a"]), 0);
    let a = spawn(&mut o, "a", 0).unwrap();
    assert!(o.stop_agent(a.wrapping_add(1)).is_none());
    assert_eq!(o.get_active_agents(), vec![a]);
    let stopped = o.stop_agent(a).unwrap();
    assert_eq!(stopped.id, a);
    assert!(o.get_assignments().is_empty());
    assert!(o.stop_agent(a).is_none());
}

#[test]
fn config_update_redistributes_only_on_new_streamers() {
    let mut o = AgentOrchestrator::new(config(2, &["a", "b"]), 0);
    assert!(!o.update_config(config(4, &["a", "b"])));
    assert_eq!(o.config().agents.max_concurrent, 4);
    assert_eq!(o.max_concurrent(), 2);
    assert!(o.update_config(config(4, &["b", "a"])));
    assert!(o.update_config(config(4, &["newstreamer"])));
    assert_eq!(o.config().streamers, vec!["newstreamer".to_string()]);
}

#[test]
fn error_agents_and_rebalancing() {
    let mut o = AgentOrchestrator::new(config(3, &["a", "b"]), 0);
    let a = spawn(&mut o, "a", 0).unwrap();
    let b = spawn(&mut o, "b", 1).unwrap();
    o.record_extraction(b, PollResult::InstanceMissing, 0, 0);
    assert_eq!(o.agents_in_error(), vec![b]);
    for _ in 0..3 {
        o.record_extraction(a, PollResult::Failed(ScrapingError::ParseError("p".to_string())), 0, 0);
    }
    // 3 errors in 20 s is above one per ten seconds; in 40 s it is not
    assert_eq!(o.rebalance_agents(20_000), vec![a]);
    assert!(o.rebalance_agents(40_000).is_empty());
    assert!(o.rebalance_agents(0).is_empty());
    let perf = o.get_agent_performance_metrics(20_000);
    assert_eq!(perf.len(), 2);
    assert_eq!(perf[0].1.error_count, 3);
    assert_eq!(perf[0].1.uptime_ms, 20_000);
}

#[test]
fn status_snapshot() {
    let mut o = AgentOrchestrator::new(config(3, &["a"]), 100);
    spawn(&mut o, "a", 0).unwrap();
    o.increment_error_count();
    let s = o.get_status(3_600_100);
    assert_eq!(s.active_agents, 1);
    assert_eq!(s.total_agents_spawned, 1);
    assert_eq!(s.error_count, 1);
    assert_eq!(s.uptime_ms, 3_600_000);
    assert_eq!(s.agent_assignments.len(), 1);
    let all = o.stop_all_agents();
    assert_eq!(all.len(), 1);
    assert!(o.get_active_agents().is_empty());
}

#[test]
fn startup_delay_in_range() {
    for _ in 0..50 {
        let d = AgentOrchestrator::startup_delay_ms();
        assert!((100..=2000).contains(&d));
    }
}
