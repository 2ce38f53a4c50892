use vstd::prelude::*;
use vstd::arithmetic::power2::pow2;
use crate::agent::{AgentMetrics, AgentStatus, ScrapingAgent, is_error_with};
use crate::error::{ScrapingError, rendered};

verus! {

/// Period of the polling loop, in milliseconds.
pub const POLL_INTERVAL_MS: u64 = 1000;

/// Failed polls in a row after which an agent gives up.
pub const MAX_CONSECUTIVE_ERRORS: u32 = 10;

/// The lower-case hexadecimal MD5 digest of the UTF-8 encoding of `s`.
pub uninterp spec fn md5_hex_of(s: Seq<char>) -> Seq<char>;

/// Relies on md5's `compute`, rendered through its `LowerHex` impl: the digest
/// depends on the text alone.
#[verifier::external_body]
fn md5_hex(text: &str) -> (r: String)
    ensures
        r@ == md5_hex_of(text@),
{
    format!("{:x}", md5::compute(text.as_bytes()))
}

/// Pause before the next poll after `consecutive` failures in a row:
/// one second, doubled per failure, doubling at most five times.
pub open spec fn backoff_ms(consecutive: u32) -> nat {
    1000 * pow2(if consecutive < 5 { consecutive as nat } else { 5 })
}

/// Whether a page differs from the one whose digest was remembered.
pub open spec fn page_changed(remembered: Seq<char>, html: Seq<char>) -> bool {
    md5_hex_of(html) != remembered
}

/// What happened when the polling loop asked for the page's messages.
#[derive(Debug, Clone)]
pub enum PollResult {
    /// The page was read; this many new messages were parsed and published.
    Extracted(u64),
    /// Reading or parsing the page failed.
    Failed(ScrapingError),
    /// The pool no longer holds the agent's browser instance.
    InstanceMissing,
}

/// What the polling loop does next.
#[derive(Debug, Clone, Copy, PartialEq, Eq, Structural)]
pub enum MonitorAction {
    /// Wait for the next tick.
    Continue,
    /// Wait this many milliseconds, then the next tick.
    Backoff(u64),
    /// End the loop.
    Exit,
}

/// Milliseconds to back off after `consecutive` failures in a row.
pub fn backoff_delay_ms(consecutive: u32) -> (r: u64)
    ensures
        r == backoff_ms(consecutive),
{
    let steps: u32 = if consecutive < 5 { consecutive } else { 5 };
    let mut delay: u64 = 1000;
    let mut i: u32 = 0;
    proof {
        vstd::arithmetic::power2::lemma2_to64();
    }
    while i < steps
        invariant
            i <= steps <= 5,
            steps == (if consecutive < 5 { consecutive } else { 5 }),
            delay == 1000 * pow2(i as nat),
        decreases steps - i,
    {
        proof {
            vstd::arithmetic::power2::lemma_pow2_unfold((i + 1) as nat);
            vstd::arithmetic::power2::lemma_pow2_strictly_increases(i as nat, 5);
            vstd::arithmetic::power2::lemma2_to64();
        }
        delay = delay * 2;
        i = i + 1;
    }
    delay
}

/// One tick of the polling loop takes agent `before` to `after` and chooses
/// `action`, given what the poll gave.
pub open spec fn extraction_step(
    before: ScrapingAgent,
    after: ScrapingAgent,
    poll: PollResult,
    now: u64,
    latency_ms: u64,
    action: MonitorAction,
) -> bool {
    &&& after.id == before.id
    &&& after.streamer == before.streamer
    &&& after.browser_instance_id == before.browser_instance_id
    &&& after.start_time == before.start_time
    &&& after.delay_range == before.delay_range
    &&& after.last_html_hash == before.last_html_hash
    &&& match poll {
        PollResult::Extracted(n) => {
            &&& action == MonitorAction::Continue
            &&& after.consecutive_errors == 0
            &&& after.status == before.status
            &&& n == 0 ==> after.metrics == before.metrics
            &&& n > 0 ==> after.metrics == (AgentMetrics {
                messages_scraped: before.metrics.messages_scraped.saturating_add(n),
                last_message_time: Some(now),
                network_latency_ms: latency_ms,
                ..before.metrics
            })
        },
        PollResult::InstanceMissing => {
            &&& action == MonitorAction::Exit
            &&& is_error_with(after.status, "Browser instance not found"@)
            &&& after.consecutive_errors == before.consecutive_errors
            &&& after.metrics == (AgentMetrics { status: after.status, ..before.metrics })
        },
        PollResult::Failed(e) => {
            &&& after.consecutive_errors == before.consecutive_errors.saturating_add(1)
            &&& if e is BrowserError {
                &&& action == MonitorAction::Exit
                &&& is_error_with(after.status, "Browser error: "@ + rendered(e))
                &&& after.metrics == (AgentMetrics { status: after.status, ..before.metrics })
            } else {
                &&& if after.consecutive_errors >= MAX_CONSECUTIVE_ERRORS {
                    &&& action == MonitorAction::Exit
                    &&& is_error_with(after.status, "Too many consecutive errors: "@ + rendered(e))
                    &&& after.metrics == (AgentMetrics {
                        error_count: before.metrics.error_count.saturating_add(1),
                        status: after.status,
                        ..before.metrics
                    })
                } else {
                    &&& action == MonitorAction::Backoff(backoff_ms(after.consecutive_errors) as u64)
                    &&& after.status == before.status
                    &&& after.metrics == (AgentMetrics {
                        error_count: before.metrics.error_count.saturating_add(1),
                        ..before.metrics
                    })
                }
            }
        },
    }
}

impl ScrapingAgent {
    /// Change detection on a digest of the page: reports whether it differs from
    /// the one seen last, and remembers it.
    pub fn record_digest(&mut self, digest: String) -> (changed: bool)
        ensures
            changed == (digest@ != old(self).last_html_hash@),
            *final(self) == (ScrapingAgent { last_html_hash: digest, ..*old(self) }),
    {
        let changed = !digest.eq(&self.last_html_hash);
        self.last_html_hash = digest;
        changed
    }

    /// Change detection on the page itself: reports whether its digest differs
    /// from the one seen last, and remembers it. Unchanged pages are not parsed.
    pub fn html_changed(&mut self, html: &str) -> (changed: bool)
        ensures
            changed == page_changed(old(self).last_html_hash@, html@),
            final(self).last_html_hash@ == md5_hex_of(html@),
            *final(self) == (ScrapingAgent { last_html_hash: final(self).last_html_hash, ..*old(self) }),
    {
        let digest = md5_hex(html);
        self.record_digest(digest)
    }

    /// One tick of the polling loop, after the page was read (or not): updates the
    /// counters and the status, and says what the loop does next.
    /// - Success resets the failure streak; new messages are counted, with their
    ///   time and the round-trip latency.
    /// - A missing instance or a browser failure puts the agent in `Error` at once.
    /// - Any other failure counts as an error and backs off, until the streak
    ///   reaches the ceiling: then the agent is in `Error` too.
    pub fn record_extraction(&mut self, poll: PollResult, now: u64, latency_ms: u64) -> (action: MonitorAction)
        ensures
            extraction_step(*old(self), *final(self), poll, now, latency_ms, action),
    {
        match poll {
            PollResult::Extracted(n) => {
                self.consecutive_errors = 0;
                if n > 0 {
                    self.update_message_metrics(n, now);
                    self.metrics.network_latency_ms = latency_ms;
                }
                MonitorAction::Continue
            },
            PollResult::InstanceMissing => {
                self.set_status(AgentStatus::Error(String::from_str("Browser instance not found")));
                MonitorAction::Exit
            },
            PollResult::Failed(e) => {
                self.consecutive_errors = self.consecutive_errors.saturating_add(1);
                if e.is_browser_error() {
                    let reason = String::from_str("Browser error: ").concat(e.to_string().as_str());
                    self.set_status(AgentStatus::Error(reason));
                    return MonitorAction::Exit;
                }
                self.increment_error_count();
                if self.consecutive_errors >= MAX_CONSECUTIVE_ERRORS {
                    let reason = String::from_str("Too many consecutive errors: ").concat(
                        e.to_string().as_str(),
                    );
                    self.set_status(AgentStatus::Error(reason));
                    MonitorAction::Exit
                } else {
                    MonitorAction::Backoff(backoff_delay_ms(self.consecutive_errors))
                }
            },
        }
    }
}

/// Change detection skips a page identical to the one before: once a page has
/// been looked at (its digest is what is remembered), the same page again counts
/// as unchanged, so nothing is parsed or published the second time.
pub proof fn lemma_identical_page_skipped(html: Seq<char>)
    ensures
        !page_changed(md5_hex_of(html), html),
{
}

} // verus!
