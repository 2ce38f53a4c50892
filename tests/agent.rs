use chat_agents::agent::{AgentStatus, DelayRange, ScrapingAgent};
use chat_agents::error::{RecoveryStrategy, ScrapingError};
use chat_agents::monitor::{backoff_delay_ms, MonitorAction, PollResult, MAX_CONSECUTIVE_ERRORS};

fn agent() -> ScrapingAgent {
    ScrapingAgent::new(DelayRange { min_ms: 1000, max_ms: 5000 })
}

#[test]
fn test_agent_creation() {
    let agent = agent();

    assert!(agent.id != 0);
    assert_eq!(agent.streamer, None);
    assert!(agent.browser_instance_id.is_none());

    let status = agent.get_status();
    assert!(matches!(status, AgentStatus::Idle));

    let metrics = agent.get_metrics(0);
    assert_eq!(metrics.messages_scraped, 0);
    assert_eq!(metrics.error_count, 0);
}

#[test]
fn test_agent_status_transitions() {
    let mut agent = agent();

    assert!(matches!(agent.get_status(), AgentStatus::Idle));
    agent.set_status(AgentStatus::Starting);
    assert!(matches!(agent.get_status(), AgentStatus::Starting));
    agent.set_status(AgentStatus::Running);
    assert!(matches!(agent.get_status(), AgentStatus::Running));
    agent.set_status(AgentStatus::Stopped);
    assert!(matches!(agent.get_status(), AgentStatus::Stopped));
}

#[test]
fn test_metrics_updates() {
    let mut agent = agent();

    let metrics = agent.get_metrics(0);
    assert_eq!(metrics.messages_scraped, 0);
    assert_eq!(metrics.error_count, 0);
    assert!(metrics.last_message_time.is_none());

    agent.increment_error_count();
    assert_eq!(agent.get_metrics(0).error_count, 1);

    agent.update_message_metrics(5, 1_700_000_000_000);
    let metrics = agent.get_metrics(0);
    assert_eq!(metrics.messages_scraped, 5);
    assert_eq!(metrics.last_message_time, Some(1_700_000_000_000));
}

#[test]
fn test_uptime_calculation() {
    let mut agent = agent();
    agent.start_time = Some(50_000);
    agent.update_uptime(60_000);
    let metrics = agent.get_metrics(60_500);
    assert!(metrics.uptime_ms / 1000 >= 9);
    assert!(metrics.uptime_ms / 1000 <= 11);
    assert_eq!(agent.metrics.uptime_ms, 10_000);
    assert_eq!(metrics.uptime_ms, 10_500);
}

#[test]
fn test_cleanup_browser_without_instance() {
    let mut agent = agent();
    assert_eq!(agent.begin_stop(), None);
    agent.finish_stop();
    assert_eq!(agent.status, AgentStatus::Stopped);
}

#[test]
fn start_lifecycle_success() {
    let mut agent = agent();
    assert!(agent.start("teststreamer", 1_000));
    assert_eq!(agent.status, AgentStatus::Starting);
    assert_eq!(agent.streamer.as_deref(), Some("teststreamer"));
    assert!(agent.initialize_browser(Ok(77)).is_ok());
    assert_eq!(agent.browser_instance_id, Some(77));
    assert!(agent.complete_start(Some(Ok(()))).is_ok());
    assert_eq!(agent.get_status(), AgentStatus::Running);
    assert_eq!(agent.metrics.status, AgentStatus::Running);
    assert_eq!(agent.begin_stop(), Some(77));
    assert_eq!(agent.status, AgentStatus::Stopping);
    agent.finish_stop();
    assert_eq!(agent.status, AgentStatus::Stopped);
    assert_eq!(agent.browser_instance_id, None);
    assert_eq!(agent.start_time, None);
}

#[test]
fn start_lifecycle_failures() {
    let mut agent = agent();
    agent.start("s", 0);
    let err = agent.initialize_browser(Err(ScrapingError::ResourceLimit("full".to_string())));
    assert!(matches!(err, Err(ScrapingError::ResourceLimit(_))));
    assert_eq!(agent.status, AgentStatus::Error("Browser init failed: Resource limit reached: full".to_string()));

    let mut agent = self::agent();
    agent.start("s", 0);
    assert!(agent.complete_start(Some(Ok(()))).is_err());
    assert_eq!(agent.status, AgentStatus::Error("No browser manager or instance available".to_string()));

    let mut agent = self::agent();
    agent.start("s", 0);
    agent.initialize_browser(Ok(1)).unwrap();
    let err = agent.complete_start(Some(Err(ScrapingError::NetworkError("dns".to_string()))));
    assert!(matches!(err, Err(ScrapingError::NetworkError(_))));
    assert_eq!(agent.status, AgentStatus::Error("Navigation failed: Network error: dns".to_string()));
    assert_eq!(agent.browser_instance_id, Some(1));

    let mut agent = self::agent();
    agent.start("s", 0);
    agent.initialize_browser(Ok(1)).unwrap();
    assert!(agent.complete_start(None).is_err());
    assert_eq!(agent.status, AgentStatus::Error("Browser instance not found".to_string()));
}

#[test]
fn identical_html_is_parsed_once() {
    let mut agent = agent();
    let html = "<div class=\"chat-line__message\">hello</div>";
    assert!(agent.html_changed(html));
    assert!(!agent.html_changed(html));
    assert!(agent.html_changed("<div>other</div>"));
    assert!(agent.html_changed(html));
    assert_eq!(agent.last_html_hash.len(), 32);
}

#[test]
fn digest_change_detection() {
    let mut agent = agent();
    assert!(agent.record_digest("abc".to_string()));
    assert!(!agent.record_digest("abc".to_string()));
    assert!(agent.record_digest("abd".to_string()));
    assert_eq!(agent.last_html_hash, "abd");
}

#[test]
fn ten_parse_errors_put_agent_in_error() {
    let mut agent = agent();
    agent.set_status(AgentStatus::Running);
    for i in 1..MAX_CONSECUTIVE_ERRORS {
        let action = agent.record_extraction(PollResult::Failed(ScrapingError::ParseError("bad".to_string())), 0, 0);
        assert!(matches!(action, MonitorAction::Backoff(_)), "poll {}", i);
        assert_eq!(agent.status, AgentStatus::Running);
    }
    let action = agent.record_extraction(PollResult::Failed(ScrapingError::ParseError("bad".to_string())), 0, 0);
    assert_eq!(action, MonitorAction::Exit);
    match &agent.status {
        AgentStatus::Error(reason) => assert!(reason.starts_with("Too many consecutive errors")),
        other => panic!("unexpected status {:?}", other),
    }
    assert_eq!(agent.metrics.error_count, 10);
    assert_eq!(agent.consecutive_errors, 10);
}

#[test]
fn success_resets_the_error_streak() {
    let mut agent = agent();
    agent.record_extraction(PollResult::Failed(ScrapingError::ParseError("x".to_string())), 0, 0);
    agent.record_extraction(PollResult::Failed(ScrapingError::ParseError("x".to_string())), 0, 0);
    assert_eq!(agent.consecutive_errors, 2);
    let action = agent.record_extraction(PollResult::Extracted(3), 42, 17);
    assert_eq!(action, MonitorAction::Continue);
    assert_eq!(agent.consecutive_errors, 0);
    assert_eq!(agent.metrics.messages_scraped, 3);
    assert_eq!(agent.metrics.last_message_time, Some(42));
    assert_eq!(agent.metrics.network_latency_ms, 17);
    agent.record_extraction(PollResult::Extracted(0), 99, 1);
    assert_eq!(agent.metrics.last_message_time, Some(42));
}

#[test]
fn browser_error_ends_the_loop_at_once() {
    let mut agent = agent();
    let action = agent.record_extraction(PollResult::Failed(ScrapingError::BrowserError("crashed".to_string())), 0, 0);
    assert_eq!(action, MonitorAction::Exit);
    assert_eq!(agent.status, AgentStatus::Error("Browser error: Browser error: crashed".to_string()));
    assert_eq!(agent.metrics.error_count, 0);

    let mut agent = self::agent();
    assert_eq!(agent.record_extraction(PollResult::InstanceMissing, 0, 0), MonitorAction::Exit);
    assert_eq!(agent.status, AgentStatus::Error("Browser instance not found".to_string()));
}

#[test]
fn backoff_doubles_and_caps() {
    assert_eq!(backoff_delay_ms(0), 1000);
    assert_eq!(backoff_delay_ms(1), 2000);
    assert_eq!(backoff_delay_ms(3), 8000);
    assert_eq!(backoff_delay_ms(5), 32000);
    assert_eq!(backoff_delay_ms(9), 32000);
    let mut agent = agent();
    let action = agent.record_extraction(PollResult::Failed(ScrapingError::NetworkError("t".to_string())), 0, 0);
    assert_eq!(action, MonitorAction::Backoff(2000));
}

#[test]
fn recovery_strategies() {
    let s = |e: ScrapingError| e.recovery_strategy();
    assert_eq!(s(ScrapingError::NetworkError(String::new())), RecoveryStrategy::RetryWithBackoff);
    assert_eq!(s(ScrapingError::BrowserError(String::new())), RecoveryStrategy::RestartBrowser);
    assert_eq!(s(ScrapingError::ParseError(String::new())), RecoveryStrategy::LogAndContinue);
    assert_eq!(s(ScrapingError::StorageError(String::new())), RecoveryStrategy::SwitchStorage);
    assert_eq!(s(ScrapingError::ConfigError(String::new())), RecoveryStrategy::ReloadConfig);
    assert_eq!(s(ScrapingError::ResourceLimit(String::new())), RecoveryStrategy::StopAgent);
    assert_eq!(s(ScrapingError::AgentError(String::new())), RecoveryStrategy::RestartBrowser);
    assert_eq!(s(ScrapingError::TUIError(String::new())), RecoveryStrategy::LogAndContinue);
    assert_eq!(ScrapingError::ConfigError("x".to_string()).to_string(), "Configuration error: x");
}

#[test]
fn pause_stays_in_range() {
    let agent = ScrapingAgent::new(DelayRange { min_ms: 10, max_ms: 20 });
    for _ in 0..50 {
        let p = agent.pause_ms();
        assert!((10..=20).contains(&p));
    }
}
