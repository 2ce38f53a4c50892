use vstd::prelude::*;
use vstd::arithmetic::power2::pow2;
use crate::error::{ScrapingError, rendered};
use crate::random::{fresh_uuid, random_between};

verus! {

/// Agents are identified by the 128-bit value of a random (version 4) UUID.
pub type AgentId = u128;

/// Browser instances are identified the same way as agents.
pub type InstanceId = u128;

/// Bounds, in milliseconds, of a random pause; `min_ms < max_ms` in a valid
/// configuration.
#[derive(Debug, Clone, Copy, PartialEq, Eq, Structural)]
pub struct DelayRange {
    pub min_ms: u64,
    pub max_ms: u64,
}

/// Lifecycle of one agent. `Error` keeps the reason until the agent is stopped or
/// replaced.
#[derive(Debug, Clone)]
pub enum AgentStatus {
    Idle,
    Starting,
    Running,
    Stopping,
    Stopped,
    Error(String),
}

/// Two statuses are equal when they are the same variant and, for `Error`, carry
/// the same reason.
pub open spec fn same_status(a: AgentStatus, b: AgentStatus) -> bool {
    match (a, b) {
        (AgentStatus::Idle, AgentStatus::Idle) => true,
        (AgentStatus::Starting, AgentStatus::Starting) => true,
        (AgentStatus::Running, AgentStatus::Running) => true,
        (AgentStatus::Stopping, AgentStatus::Stopping) => true,
        (AgentStatus::Stopped, AgentStatus::Stopped) => true,
        (AgentStatus::Error(x), AgentStatus::Error(y)) => x@ == y@,
        _ => false,
    }
}

/// The status `Error(reason)` for a reason given by its characters.
pub open spec fn is_error_with(s: AgentStatus, reason: Seq<char>) -> bool {
    s matches AgentStatus::Error(m) && m@ == reason
}

impl PartialEq for AgentStatus {
    fn eq(&self, other: &AgentStatus) -> (r: bool) {
        match self {
            AgentStatus::Idle => matches!(other, AgentStatus::Idle),
            AgentStatus::Starting => matches!(other, AgentStatus::Starting),
            AgentStatus::Running => matches!(other, AgentStatus::Running),
            AgentStatus::Stopping => matches!(other, AgentStatus::Stopping),
            AgentStatus::Stopped => matches!(other, AgentStatus::Stopped),
            AgentStatus::Error(x) => match other {
                AgentStatus::Error(y) => x.eq(y),
                _ => false,
            },
        }
    }
}

impl vstd::std_specs::cmp::PartialEqSpecImpl for AgentStatus {
    open spec fn obeys_eq_spec() -> bool {
        true
    }

    open spec fn eq_spec(&self, other: &AgentStatus) -> bool {
        same_status(*self, *other)
    }
}

impl AgentStatus {
    /// An identical copy of this status.
    pub fn duplicate(&self) -> (r: AgentStatus)
        ensures
            r == *self,
    {
        match self {
            AgentStatus::Idle => AgentStatus::Idle,
            AgentStatus::Starting => AgentStatus::Starting,
            AgentStatus::Running => AgentStatus::Running,
            AgentStatus::Stopping => AgentStatus::Stopping,
            AgentStatus::Stopped => AgentStatus::Stopped,
            AgentStatus::Error(m) => AgentStatus::Error(m.clone()),
        }
    }

    /// Whether this is the `Error` state.
    pub fn is_error(&self) -> (r: bool)
        ensures
            r == (*self is Error),
    {
        match self {
            AgentStatus::Error(_) => true,
            _ => false,
        }
    }
}

/// Counters and readings of one agent; times are in milliseconds.
#[derive(Debug, Clone)]
pub struct AgentMetrics {
    pub messages_scraped: u64,
    pub uptime_ms: u64,
    pub error_count: u32,
    /// Milliseconds since the Unix epoch of the last batch of messages.
    pub last_message_time: Option<u64>,
    pub network_latency_ms: u64,
    pub memory_usage: u64,
    pub status: AgentStatus,
}

impl AgentMetrics {
    /// The metrics of an agent that has done nothing yet.
    pub open spec fn new_spec() -> AgentMetrics {
        AgentMetrics {
            messages_scraped: 0,
            uptime_ms: 0,
            error_count: 0,
            last_message_time: None,
            network_latency_ms: 0,
            memory_usage: 0,
            status: AgentStatus::Idle,
        }
    }

    /// Metrics of an agent that has done nothing yet.
    pub fn new() -> (r: AgentMetrics)
        ensures
            r == AgentMetrics::new_spec(),
    {
        AgentMetrics {
            messages_scraped: 0,
            uptime_ms: 0,
            error_count: 0,
            last_message_time: None,
            network_latency_ms: 0,
            memory_usage: 0,
            status: AgentStatus::Idle,
        }
    }

    /// An identical copy of these metrics.
    pub fn duplicate(&self) -> (r: AgentMetrics)
        ensures
            r == *self,
    {
        AgentMetrics {
            messages_scraped: self.messages_scraped,
            uptime_ms: self.uptime_ms,
            error_count: self.error_count,
            last_message_time: self.last_message_time,
            network_latency_ms: self.network_latency_ms,
            memory_usage: self.memory_usage,
            status: self.status.duplicate(),
        }
    }
}

/// One scraping worker as the supervisor sees it: its identity, target, status,
/// metrics, the browser instance it holds, and the state of its polling loop.
/// Times are milliseconds; `start_time` is on the caller's monotonic clock.
#[derive(Debug, Clone)]
pub struct ScrapingAgent {
    pub id: AgentId,
    pub streamer: Option<String>,
    pub status: AgentStatus,
    pub metrics: AgentMetrics,
    pub browser_instance_id: Option<InstanceId>,
    pub start_time: Option<u64>,
    /// Bounds, in milliseconds, of the random pauses the agent takes.
    pub delay_range: DelayRange,
    /// Digest of the last page content the polling loop looked at.
    pub last_html_hash: String,
    /// Failed polls since the last successful one.
    pub consecutive_errors: u32,
}

impl ScrapingAgent {
    /// The same agent with another status, written both to the status and to the
    /// metrics' snapshot of it.
    pub open spec fn with_status(self, s: AgentStatus) -> ScrapingAgent {
        ScrapingAgent { status: s, metrics: AgentMetrics { status: s, ..self.metrics }, ..self }
    }

    /// A new idle agent with a fresh random identifier.
    pub fn new(delay_range: DelayRange) -> (r: ScrapingAgent)
        ensures
            r.status is Idle,
            r.streamer is None,
            r.browser_instance_id is None,
            r.start_time is None,
            r.delay_range == delay_range,
            r.last_html_hash@ == Seq::<char>::empty(),
            r.consecutive_errors == 0,
            r.metrics == AgentMetrics::new_spec(),
    {
        ScrapingAgent {
            id: fresh_uuid(),
            streamer: None,
            status: AgentStatus::Idle,
            metrics: AgentMetrics::new(),
            browser_instance_id: None,
            start_time: None,
            delay_range,
            last_html_hash: String::new(),
            consecutive_errors: 0,
        }
    }

    /// A random pause within the agent's delay range, in milliseconds.
    pub fn pause_ms(&self) -> (r: u64)
        requires
            self.delay_range.min_ms <= self.delay_range.max_ms,
        ensures
            self.delay_range.min_ms <= r <= self.delay_range.max_ms,
    {
        random_between(self.delay_range.min_ms, self.delay_range.max_ms)
    }

    /// Records a new status, in the agent and in its metrics.
    pub fn set_status(&mut self, status: AgentStatus)
        ensures
            *final(self) == old(self).with_status(status),
    {
        self.metrics.status = status.duplicate();
        self.status = status;
    }

    /// The current status.
    pub fn get_status(&self) -> (r: AgentStatus)
        ensures
            r == self.status,
    {
        self.status.duplicate()
    }

    /// First step of starting: the agent is `Starting`, bound to `streamer`, and
    /// its clock starts at `now`. Returns whether it still has to acquire a browser
    /// instance.
    pub fn start(&mut self, streamer: &str, now: u64) -> (needs_browser: bool)
        ensures
            final(self).status is Starting,
            final(self).metrics.status is Starting,
            final(self).streamer matches Some(s) && s@ == streamer@,
            final(self).start_time == Some(now),
            final(self).id == old(self).id,
            final(self).browser_instance_id == old(self).browser_instance_id,
            final(self).delay_range == old(self).delay_range,
            needs_browser == (old(self).browser_instance_id is None),
    {
        self.set_status(AgentStatus::Starting);
        self.streamer = Some(String::from_str(streamer));
        self.start_time = Some(now);
        self.browser_instance_id.is_none()
    }

    /// Takes the outcome of asking the pool for a browser instance. On success the
    /// agent holds the instance; on failure it is in `Error` and the error is handed
    /// back.
    pub fn initialize_browser(&mut self, created: Result<InstanceId, ScrapingError>) -> (r: Result<(), ScrapingError>)
        ensures
            final(self).id == old(self).id,
            final(self).streamer == old(self).streamer,
            final(self).start_time == old(self).start_time,
            match created {
                Ok(i) => r is Ok && *final(self) == (ScrapingAgent { browser_instance_id: Some(i), ..*old(self) }),
                Err(e) => r == Err::<(), ScrapingError>(e)
                    && is_error_with(final(self).status, "Browser init failed: "@ + rendered(e))
                    && final(self).status == final(self).metrics.status
                    && final(self).browser_instance_id == old(self).browser_instance_id,
            },
    {
        match created {
            Ok(instance) => {
                self.browser_instance_id = Some(instance);
                Ok(())
            },
            Err(e) => {
                let reason = String::from_str("Browser init failed: ").concat(e.to_string().as_str());
                self.set_status(AgentStatus::Error(reason));
                Err(e)
            },
        }
    }

    /// Last step of starting, given what navigating the agent's page gave
    /// (`None`: the pool no longer has the agent's instance). On success the agent
    /// is `Running`; otherwise it is in `Error` and keeps its instance so that the
    /// caller can inspect it before stopping the agent.
    pub fn complete_start(&mut self, navigation: Option<Result<(), ScrapingError>>) -> (r: Result<(), ScrapingError>)
        ensures
            final(self).id == old(self).id,
            final(self).streamer == old(self).streamer,
            final(self).browser_instance_id == old(self).browser_instance_id,
            final(self).start_time == old(self).start_time,
            final(self).status == final(self).metrics.status,
            old(self).browser_instance_id is None ==> r is Err
                && is_error_with(final(self).status, "No browser manager or instance available"@),
            old(self).browser_instance_id is Some ==> match navigation {
                None => r is Err && is_error_with(final(self).status, "Browser instance not found"@),
                Some(Ok(())) => r is Ok && final(self).status is Running,
                Some(Err(e)) => r == Err::<(), ScrapingError>(e)
                    && is_error_with(final(self).status, "Navigation failed: "@ + rendered(e)),
            },
    {
        if self.browser_instance_id.is_none() {
            let reason = String::from_str("No browser manager or instance available");
            self.set_status(AgentStatus::Error(reason.clone()));
            return Err(ScrapingError::AgentError(reason));
        }
        match navigation {
            None => {
                let reason = String::from_str("Browser instance not found");
                self.set_status(AgentStatus::Error(reason.clone()));
                Err(ScrapingError::AgentError(reason))
            },
            Some(Ok(())) => {
                self.set_status(AgentStatus::Running);
                Ok(())
            },
            Some(Err(e)) => {
                let reason = String::from_str("Navigation failed: ").concat(e.to_string().as_str());
                self.set_status(AgentStatus::Error(reason));
                Err(e)
            },
        }
    }

    /// First step of stopping: the agent is `Stopping`. Returns the browser
    /// instance that the caller must release once the polling loop has ended.
    pub fn begin_stop(&mut self) -> (held: Option<InstanceId>)
        ensures
            *final(self) == old(self).with_status(AgentStatus::Stopping),
            held == old(self).browser_instance_id,
    {
        self.set_status(AgentStatus::Stopping);
        self.browser_instance_id
    }

    /// Last step of stopping: the agent holds no instance, its clock is cleared,
    /// and it is `Stopped`.
    pub fn finish_stop(&mut self)
        ensures
            *final(self) == (ScrapingAgent {
                browser_instance_id: None,
                start_time: None,
                ..old(self).with_status(AgentStatus::Stopped)
            }),
    {
        self.browser_instance_id = None;
        self.start_time = None;
        self.set_status(AgentStatus::Stopped);
    }

    /// Time since start, in milliseconds, on the clock reading `now`; zero when
    /// the agent has not been started.
    pub open spec fn uptime_at(self, now: u64) -> u64 {
        match self.start_time {
            Some(t) => now.saturating_sub(t),
            None => self.metrics.uptime_ms,
        }
    }

    /// Refreshes the recorded uptime from the start instant.
    pub fn update_uptime(&mut self, now: u64)
        ensures
            *final(self) == (ScrapingAgent {
                metrics: AgentMetrics { uptime_ms: old(self).uptime_at(now), ..old(self).metrics },
                ..*old(self)
            }),
    {
        if let Some(t) = self.start_time {
            self.metrics.uptime_ms = now.saturating_sub(t);
        }
    }

    /// A snapshot of the metrics, with the uptime recomputed for `now` and the
    /// current status.
    pub fn get_metrics(&self, now: u64) -> (r: AgentMetrics)
        ensures
            r == (AgentMetrics { uptime_ms: self.uptime_at(now), status: self.status, ..self.metrics }),
    {
        let mut m = self.metrics.duplicate();
        if let Some(t) = self.start_time {
            m.uptime_ms = now.saturating_sub(t);
        }
        m.status = self.status.duplicate();
        m
    }

    /// Counts one more error (saturating at the counter's maximum).
    pub fn increment_error_count(&mut self)
        ensures
            *final(self) == (ScrapingAgent {
                metrics: AgentMetrics { error_count: old(self).metrics.error_count.saturating_add(1), ..old(self).metrics },
                ..*old(self)
            }),
    {
        self.metrics.error_count = self.metrics.error_count.saturating_add(1);
    }

    /// Counts `message_count` more scraped messages (saturating) received at `now`.
    pub fn update_message_metrics(&mut self, message_count: u64, now: u64)
        ensures
            *final(self) == (ScrapingAgent {
                metrics: AgentMetrics {
                    messages_scraped: old(self).metrics.messages_scraped.saturating_add(message_count),
                    last_message_time: Some(now),
                    ..old(self).metrics
                },
                ..*old(self)
            }),
    {
        self.metrics.messages_scraped = self.metrics.messages_scraped.saturating_add(message_count);
        self.metrics.last_message_time = Some(now);
    }
}

} // verus!
