use vstd::prelude::*;
use vstd::string::StrSliceExecFns;
use crate::agent::DelayRange;
use crate::error::ScrapingError;

verus! {

/// Settings of the agents.
#[derive(Debug, Clone)]
pub struct AgentConfig {
    /// Most agents that may run at once.
    pub max_concurrent: usize,
    pub retry_attempts: u32,
    /// Bounds of the random pauses agents take, in milliseconds.
    pub delay_range: DelayRange,
    /// Proxies as `host:port`.
    pub proxy_list: Option<Vec<String>>,
}

/// Where and how scraped messages are written.
#[derive(Debug, Clone)]
pub struct OutputConfig {
    /// One of `json`, `csv`, `custom`.
    pub format: String,
    pub directory: String,
    /// Size after which a file is rotated, such as `100MB`.
    pub rotation_size: String,
    /// Age after which a file is rotated, such as `1h`.
    pub rotation_time: String,
}

/// The monitoring surfaces.
#[derive(Debug, Clone)]
pub struct MonitorConfig {
    pub tui_enabled: bool,
    pub api_port: u16,
    pub dashboard_port: Option<u16>,
    pub api_token: Option<String>,
    pub webhook_url: Option<String>,
    pub discord_webhook_url: Option<String>,
    pub custom_css: Option<String>,
}

/// Detection countermeasures that browsers are set up with.
#[derive(Debug, Clone)]
pub struct StealthConfig {
    pub randomize_user_agents: bool,
    pub simulate_human_behavior: bool,
    pub proxy_rotation: bool,
    pub fingerprint_randomization: bool,
}

/// The whole service configuration. `streamers` is ordered: earlier entries get
/// higher priority.
#[derive(Debug, Clone)]
pub struct Config {
    pub streamers: Vec<String>,
    pub agents: AgentConfig,
    pub output: OutputConfig,
    pub monitoring: MonitorConfig,
    pub stealth: StealthConfig,
}

/// The characters of each name in a list of names.
pub open spec fn names_of(v: Seq<String>) -> Seq<Seq<char>> {
    v.map_values(|s: String| s@)
}

impl Default for Config {
    /// Two streamers, five agents at most, JSON output rotated at 100MB or
    /// hourly, the terminal dashboard and the API on port 8080.
    fn default() -> (r: Config)
        ensures
            r.streamers@.len() == 2,
            r.streamers@[0]@ == "shroud"@,
            r.streamers@[1]@ == "ninja"@,
            r.agents.max_concurrent == 5,
            r.agents.retry_attempts == 3,
            r.agents.delay_range == (DelayRange { min_ms: 1000, max_ms: 5000 }),
            r.agents.proxy_list is None,
            r.output.format@ == "json"@,
            r.output.directory@ == "./scraped_data"@,
            r.output.rotation_size@ == "100MB"@,
            r.output.rotation_time@ == "1h"@,
            r.monitoring.tui_enabled,
            r.monitoring.api_port == 8080,
            r.monitoring.dashboard_port == Some(8888u16),
            r.monitoring.api_token is None,
            r.monitoring.webhook_url is None,
            r.monitoring.discord_webhook_url is None,
            r.monitoring.custom_css is None,
            r.stealth.randomize_user_agents,
            r.stealth.simulate_human_behavior,
            !r.stealth.proxy_rotation,
            r.stealth.fingerprint_randomization,
    {
        let mut streamers: Vec<String> = Vec::new();
        streamers.push(String::from_str("shroud"));
        streamers.push(String::from_str("ninja"));
        Config {
            streamers,
            agents: AgentConfig {
                max_concurrent: 5,
                retry_attempts: 3,
                delay_range: DelayRange { min_ms: 1000, max_ms: 5000 },
                proxy_list: None,
            },
            output: OutputConfig {
                format: String::from_str("json"),
                directory: String::from_str("./scraped_data"),
                rotation_size: String::from_str("100MB"),
                rotation_time: String::from_str("1h"),
            },
            monitoring: MonitorConfig {
                tui_enabled: true,
                api_port: 8080,
                dashboard_port: Some(8888),
                api_token: None,
                webhook_url: None,
                discord_webhook_url: None,
                custom_css: None,
            },
            stealth: StealthConfig {
                randomize_user_agents: true,
                simulate_human_behavior: true,
                proxy_rotation: false,
                fingerprint_randomization: true,
            },
        }
    }
}

impl Config {
    /// The configured streamers' names, in order.
    pub open spec fn streamer_names(self) -> Seq<Seq<char>> {
        names_of(self.streamers@)
    }
}

/// Whether Unicode classes the character as white space.
pub uninterp spec fn white_space(c: char) -> bool;

/// Relies on `char::is_whitespace`: whether the character has the Unicode
/// `White_Space` property, which depends on the character alone.
#[verifier::external_body]
pub(crate) fn is_white_space(c: char) -> (r: bool)
    ensures
        r == white_space(c),
{
    c.is_whitespace()
}

/// Whether a text is empty once white space is trimmed.
pub open spec fn blank(s: Seq<char>) -> bool {
    forall|i: int| 0 <= i < s.len() ==> white_space(#[trigger] s[i])
}

/// Whether a text holds the character `c`.
pub open spec fn holds_char(s: Seq<char>, c: char) -> bool {
    exists|i: int| 0 <= i < s.len() && s[i] == c
}

/// Whether a streamer name is acceptable: not blank, without spaces, at most
/// 25 bytes long.
pub open spec fn valid_streamer(s: String) -> bool {
    !blank(s@) && !holds_char(s@, ' ') && vstd::utf8::encode_utf8(s@).len() <= 25
}

/// Whether every proxy, if any are given, is written `host:port`.
pub open spec fn proxies_valid(p: Option<Vec<String>>) -> bool {
    match p {
        Some(l) => host_ports(l@),
        None => true,
    }
}

/// Whether every entry is written `host:port`.
pub open spec fn host_ports(l: Seq<String>) -> bool {
    forall|i: int| 0 <= i < l.len() ==> holds_char(#[trigger] l[i]@, ':')
}

/// Whether a configuration is acceptable.
pub open spec fn config_valid(c: Config) -> bool {
    &&& c.streamers@.len() > 0
    &&& forall|i: int| 0 <= i < c.streamers@.len() ==> valid_streamer(#[trigger] c.streamers@[i])
    &&& 1 <= c.agents.max_concurrent <= 50
    &&& c.agents.retry_attempts <= 10
    &&& c.agents.delay_range.min_ms < c.agents.delay_range.max_ms
    &&& c.agents.delay_range.max_ms <= 60000
    &&& proxies_valid(c.agents.proxy_list)
    &&& (c.output.format@ == "json"@ || c.output.format@ == "csv"@ || c.output.format@ == "custom"@)
    &&& valid_size(c.output.rotation_size@)
    &&& duration_in_secs(c.output.rotation_time@) is Some
    &&& c.monitoring.api_port >= 1024
    &&& (c.monitoring.webhook_url matches Some(u) ==> (u@.len() >= 7 && u@.subrange(0, 7) == "http://"@)
        || (u@.len() >= 8 && u@.subrange(0, 8) == "https://"@))
}

/// Whether `s` holds the character `c`.
fn contains_char(s: &str, c: char) -> (r: bool)
    ensures
        r == holds_char(s@, c),
{
    let n = s.unicode_len();
    let mut i: usize = 0;
    while i < n
        invariant
            n == s@.len(),
            i <= n,
            forall|j: int| 0 <= j < i ==> s@[j] != c,
        decreases n - i,
    {
        if s.get_char(i) == c {
            return true;
        }
        i = i + 1;
    }
    false
}

/// Whether every proxy of the list is written `host:port`.
fn all_host_port(proxies: &Vec<String>) -> (r: bool)
    ensures
        r == host_ports(proxies@),
{
    let mut k: usize = 0;
    while k < proxies.len()
        invariant
            k <= proxies@.len(),
            forall|j: int| 0 <= j < k ==> holds_char(#[trigger] proxies@[j]@, ':'),
        decreases proxies@.len() - k,
    {
        let entry = proxies[k].as_str();
        assert(entry@ == proxies@[k as int]@);
        if !contains_char(entry, ':') {
            assert(!holds_char(proxies@[k as int]@, ':'));
            return false;
        }
        k = k + 1;
    }
    true
}

/// Whether `s` is empty once white space is trimmed.
fn is_blank(s: &str) -> (r: bool)
    ensures
        r == blank(s@),
{
    let n = s.unicode_len();
    let mut i: usize = 0;
    while i < n
        invariant
            n == s@.len(),
            i <= n,
            forall|j: int| 0 <= j < i ==> white_space(#[trigger] s@[j]),
        decreases n - i,
    {
        if !is_white_space(s.get_char(i)) {
            return false;
        }
        i = i + 1;
    }
    true
}

/// Whether `s` starts with `prefix`.
fn starts_with(s: &str, prefix: &str) -> (r: bool)
    ensures
        r == (s@.len() >= prefix@.len() && s@.subrange(0, prefix@.len() as int) == prefix@),
{
    let n = prefix.unicode_len();
    if s.unicode_len() < n {
        return false;
    }
    let head = s.substring_char(0, n);
    crate::text::same_text(head, prefix)
}

/// The value of a decimal digit.
pub open spec fn digit_value(c: char) -> Option<nat> {
    if c == '0' { Some(0) } else if c == '1' { Some(1) } else if c == '2' { Some(2) } else if c == '3' { Some(3) }
    else if c == '4' { Some(4) } else if c == '5' { Some(5) } else if c == '6' { Some(6) } else if c == '7' { Some(7) }
    else if c == '8' { Some(8) } else if c == '9' { Some(9) } else { None }
}

/// Whether every character is a decimal digit.
pub open spec fn all_digits(s: Seq<char>) -> bool {
    forall|i: int| 0 <= i < s.len() ==> (#[trigger] digit_value(s[i])) is Some
}

/// The number that a string of decimal digits writes.
pub open spec fn digits_value(s: Seq<char>) -> nat
    decreases s.len(),
{
    if s.len() == 0 {
        0
    } else {
        digits_value(s.drop_last()) * 10 + digit_value(s.last())->0
    }
}

/// The digits of an unsigned decimal: the text without one leading `+`.
pub open spec fn unsigned_digits(s: Seq<char>) -> Seq<char> {
    if s.len() > 0 && s[0] == '+' { s.drop_first() } else { s }
}

/// The value of `s` read as an unsigned 64-bit decimal (an optional `+`, then
/// at least one digit, within range), if it is one.
pub open spec fn u64_of(s: Seq<char>) -> Option<nat> {
    let d = unsigned_digits(s);
    if d.len() > 0 && all_digits(d) && digits_value(d) <= u64::MAX {
        Some(digits_value(d))
    } else {
        None
    }
}

/// Whether `c` is the letter given in lower and upper case.
pub open spec fn letter_is(c: char, lower: char, upper: char) -> bool {
    c == lower || c == upper
}

/// Whether `s` ends with the one letter given, in either case.
pub open spec fn ends_with_1(s: Seq<char>, l: char, u: char) -> bool {
    s.len() >= 1 && letter_is(s[s.len() - 1], l, u)
}

/// Whether `s` ends with the two letters given, in either case.
pub open spec fn ends_with_2(s: Seq<char>, l1: char, u1: char, l2: char, u2: char) -> bool {
    s.len() >= 2 && letter_is(s[s.len() - 2], l1, u1) && letter_is(s[s.len() - 1], l2, u2)
}

/// The text without its last `k` characters.
pub open spec fn without_suffix(s: Seq<char>, k: int) -> Seq<char> {
    s.subrange(0, s.len() - k)
}

/// The unit a size ends with, in either case, checking `TB`, `GB`, `MB`, `KB`
/// and `B` in this order: the unit's length and its number of bytes.
pub open spec fn size_unit(s: Seq<char>) -> Option<(int, nat)> {
    if ends_with_2(s, 't', 'T', 'b', 'B') { Some((2, 1024 * 1024 * 1024 * 1024)) }
    else if ends_with_2(s, 'g', 'G', 'b', 'B') { Some((2, 1024 * 1024 * 1024)) }
    else if ends_with_2(s, 'm', 'M', 'b', 'B') { Some((2, 1024 * 1024)) }
    else if ends_with_2(s, 'k', 'K', 'b', 'B') { Some((2, 1024)) }
    else if ends_with_1(s, 'b', 'B') { Some((1, 1)) }
    else { None }
}

/// The number of bytes a size such as `100MB` stands for, if it is well formed.
pub open spec fn size_in_bytes(s: Seq<char>) -> Option<nat> {
    match size_unit(s) {
        Some((k, m)) => match u64_of(without_suffix(s, k)) {
            Some(v) => Some(v * m),
            None => None,
        },
        None => None,
    }
}

/// Whether some unit of `B`, `KB`, `MB`, `GB`, `TB` ends `s`, in either case,
/// after an unsigned decimal.
pub open spec fn valid_size(s: Seq<char>) -> bool {
    ||| ends_with_1(s, 'b', 'B') && u64_of(without_suffix(s, 1)) is Some
    ||| ends_with_2(s, 'k', 'K', 'b', 'B') && u64_of(without_suffix(s, 2)) is Some
    ||| ends_with_2(s, 'm', 'M', 'b', 'B') && u64_of(without_suffix(s, 2)) is Some
    ||| ends_with_2(s, 'g', 'G', 'b', 'B') && u64_of(without_suffix(s, 2)) is Some
    ||| ends_with_2(s, 't', 'T', 'b', 'B') && u64_of(without_suffix(s, 2)) is Some
}

/// The seconds that the unit `s`, `m`, `h` or `d` ending a duration stands for.
pub open spec fn time_unit(s: Seq<char>) -> Option<nat> {
    if ends_with_1(s, 's', 'S') { Some(1) }
    else if ends_with_1(s, 'm', 'M') { Some(60) }
    else if ends_with_1(s, 'h', 'H') { Some(3600) }
    else if ends_with_1(s, 'd', 'D') { Some(86400) }
    else { None }
}

/// The number of seconds a duration such as `30m` stands for, if it is well
/// formed.
pub open spec fn duration_in_secs(s: Seq<char>) -> Option<nat> {
    match time_unit(s) {
        Some(m) => match u64_of(without_suffix(s, 1)) {
            Some(v) => Some(v * m),
            None => None,
        },
        None => None,
    }
}

/// The value of a decimal digit.
fn digit(c: char) -> (r: Option<u64>)
    ensures
        match digit_value(c) {
            Some(v) => r == Some(v as u64),
            None => r is None,
        },
{
    if c == '0' { Some(0) } else if c == '1' { Some(1) } else if c == '2' { Some(2) } else if c == '3' { Some(3) }
    else if c == '4' { Some(4) } else if c == '5' { Some(5) } else if c == '6' { Some(6) } else if c == '7' { Some(7) }
    else if c == '8' { Some(8) } else if c == '9' { Some(9) } else { None }
}

/// Reads the first `len` characters of `s` as an unsigned 64-bit decimal.
pub(crate) fn parse_u64_prefix(s: &str, len: usize) -> (r: Option<u64>)
    requires
        len <= s@.len(),
    ensures
        match u64_of(s@.subrange(0, len as int)) {
            Some(v) => r == Some(v as u64),
            None => r is None,
        },
{
    let ghost text = s@.subrange(0, len as int);
    let start: usize = if len > 0 && s.get_char(0) == '+' { 1 } else { 0 };
    let ghost d = unsigned_digits(text);
    assert(d == s@.subrange(start as int, len as int));
    if start >= len {
        return None;
    }
    let mut value: u64 = 0;
    let mut i: usize = start;
    while i < len
        invariant
            start <= i <= len <= s@.len(),
            d == s@.subrange(start as int, len as int),
            d == unsigned_digits(s@.subrange(0, len as int)),
            all_digits(s@.subrange(start as int, i as int)),
            value == digits_value(s@.subrange(start as int, i as int)),
        decreases len - i,
    {
        let ghost before = s@.subrange(start as int, i as int);
        let ghost after = s@.subrange(start as int, i + 1);
        assert(after.drop_last() == before);
        assert(after.last() == s@[i as int]);
        match digit(s.get_char(i)) {
            None => {
                assert(d[i - start] == s@[i as int]);
                assert(digit_value(d[i - start]) is None);
                return None;
            },
            Some(v) => {
                if value > (u64::MAX - v) / 10 {
                    proof {
                        assert(value * 10 + v > u64::MAX) by (nonlinear_arith)
                            requires
                                value > (u64::MAX - v) / 10,
                                v <= 9,
                        ;
                        assert(d.subrange(0, i - start + 1) == after);
                        assert(all_digits(after)) by {
                            assert forall|t: int| 0 <= t < after.len() implies (#[trigger] digit_value(after[t])) is Some by {
                                if t < before.len() {
                                    assert(after[t] == before[t]);
                                }
                            }
                        }
                        lemma_digits_grow(d, (i - start + 1) as int);
                    }
                    return None;
                }
                value = value * 10 + v;
                assert(all_digits(after)) by {
                    assert forall|t: int| 0 <= t < after.len() implies (#[trigger] digit_value(after[t])) is Some by {
                        if t < before.len() {
                            assert(after[t] == before[t]);
                        }
                    }
                }
            },
        }
        i = i + 1;
    }
    Some(value)
}

/// A prefix of digits writes no more than the whole.
proof fn lemma_digits_grow(d: Seq<char>, k: int)
    requires
        0 <= k <= d.len(),
        all_digits(d.subrange(0, k)),
    ensures
        all_digits(d) ==> digits_value(d.subrange(0, k)) <= digits_value(d),
    decreases d.len() - k,
{
    if k < d.len() && all_digits(d) {
        assert(all_digits(d.subrange(0, k + 1))) by {
            assert forall|t: int| 0 <= t < k + 1 implies (#[trigger] digit_value(d.subrange(0, k + 1)[t])) is Some by {
                assert(d.subrange(0, k + 1)[t] == d[t]);
            }
        }
        lemma_digits_grow(d, k + 1);
        assert(d.subrange(0, k + 1).drop_last() == d.subrange(0, k));
    } else if k == d.len() {
        assert(d.subrange(0, k) == d);
    }
}

/// Whether the character at `i` is the letter given, in either case.
fn letter_at(s: &str, i: usize, lower: char, upper: char) -> (r: bool)
    requires
        i < s@.len(),
    ensures
        r == letter_is(s@[i as int], lower, upper),
{
    let c = s.get_char(i);
    c == lower || c == upper
}

/// Reads and validates configuration files.
pub struct FileConfigManager {
    pub config_path: String,
}

impl FileConfigManager {
    /// A manager of the configuration file at `config_path`.
    pub fn new(config_path: String) -> (r: FileConfigManager)
        ensures
            r.config_path == config_path,
    {
        FileConfigManager { config_path }
    }

    /// Whether `size_str` is a size such as `100MB` or `1gb`.
    pub fn is_valid_size_format(size_str: &str) -> (r: bool)
        ensures
            r == valid_size(size_str@),
    {
        let n = size_str.unicode_len();
        if n >= 1 && letter_at(size_str, n - 1, 'b', 'B') {
            if parse_u64_prefix(size_str, n - 1).is_some() {
                return true;
            }
            if n >= 2 && (letter_at(size_str, n - 2, 'k', 'K') || letter_at(size_str, n - 2, 'm', 'M')
                || letter_at(size_str, n - 2, 'g', 'G') || letter_at(size_str, n - 2, 't', 'T')) {
                return parse_u64_prefix(size_str, n - 2).is_some();
            }
        }
        false
    }

    /// Whether `time_str` is a duration such as `30m` or `1H`.
    pub fn is_valid_time_format(time_str: &str) -> (r: bool)
        ensures
            r == (duration_in_secs(time_str@) is Some),
    {
        let n = time_str.unicode_len();
        if n >= 1 && (letter_at(time_str, n - 1, 's', 'S') || letter_at(time_str, n - 1, 'm', 'M')
            || letter_at(time_str, n - 1, 'h', 'H') || letter_at(time_str, n - 1, 'd', 'D')) {
            return parse_u64_prefix(time_str, n - 1).is_some();
        }
        false
    }

    /// The number of bytes a size such as `100MB` stands for. Fails with
    /// `ConfigError` when the text is not a size or the number of bytes does not
    /// fit in 64 bits.
    pub fn parse_size_to_bytes(size_str: &str) -> (r: Result<u64, ScrapingError>)
        ensures
            match size_in_bytes(size_str@) {
                Some(v) => if v <= u64::MAX { r == Ok::<u64, ScrapingError>(v as u64) } else { r matches Err(ScrapingError::ConfigError(_)) },
                None => r matches Err(ScrapingError::ConfigError(_)),
            },
    {
        let n = size_str.unicode_len();
        let unit: Option<(usize, u64)> =
            if n >= 2 && letter_at(size_str, n - 2, 't', 'T') && letter_at(size_str, n - 1, 'b', 'B') {
                Some((2, 1024 * 1024 * 1024 * 1024))
            } else if n >= 2 && letter_at(size_str, n - 2, 'g', 'G') && letter_at(size_str, n - 1, 'b', 'B') {
                Some((2, 1024 * 1024 * 1024))
            } else if n >= 2 && letter_at(size_str, n - 2, 'm', 'M') && letter_at(size_str, n - 1, 'b', 'B') {
                Some((2, 1024 * 1024))
            } else if n >= 2 && letter_at(size_str, n - 2, 'k', 'K') && letter_at(size_str, n - 1, 'b', 'B') {
                Some((2, 1024))
            } else if n >= 1 && letter_at(size_str, n - 1, 'b', 'B') {
                Some((1, 1))
            } else {
                None
            };
        match unit {
            None => Err(ScrapingError::ConfigError(String::from_str("Invalid size format: ").concat(size_str))),
            Some((k, multiplier)) => match parse_u64_prefix(size_str, n - k) {
                None => Err(ScrapingError::ConfigError(String::from_str("Invalid number in size format: ").concat(size_str))),
                Some(number) => match number.checked_mul(multiplier) {
                    Some(bytes) => Ok(bytes),
                    None => Err(ScrapingError::ConfigError(String::from_str("Size too large: ").concat(size_str))),
                },
            },
        }
    }

    /// The number of seconds a duration such as `30m` stands for. Fails with
    /// `ConfigError` when the text is not a duration or the number of seconds does
    /// not fit in 64 bits.
    pub fn parse_time_to_duration(time_str: &str) -> (r: Result<u64, ScrapingError>)
        ensures
            match duration_in_secs(time_str@) {
                Some(v) => if v <= u64::MAX { r == Ok::<u64, ScrapingError>(v as u64) } else { r matches Err(ScrapingError::ConfigError(_)) },
                None => r matches Err(ScrapingError::ConfigError(_)),
            },
    {
        let n = time_str.unicode_len();
        let unit: Option<u64> =
            if n >= 1 && letter_at(time_str, n - 1, 's', 'S') {
                Some(1)
            } else if n >= 1 && letter_at(time_str, n - 1, 'm', 'M') {
                Some(60)
            } else if n >= 1 && letter_at(time_str, n - 1, 'h', 'H') {
                Some(3600)
            } else if n >= 1 && letter_at(time_str, n - 1, 'd', 'D') {
                Some(86400)
            } else {
                None
            };
        match unit {
            None => Err(ScrapingError::ConfigError(String::from_str("Invalid time format: ").concat(time_str))),
            Some(multiplier) => match parse_u64_prefix(time_str, n - 1) {
                None => Err(ScrapingError::ConfigError(String::from_str("Invalid time format: ").concat(time_str))),
                Some(number) => match number.checked_mul(multiplier) {
                    Some(secs) => Ok(secs),
                    None => Err(ScrapingError::ConfigError(String::from_str("Duration too long: ").concat(time_str))),
                },
            },
        }
    }

    /// Checks a configuration against the rules of `config_valid`, reporting the
    /// first rule broken as a `ConfigError`. (Whether a custom stylesheet exists
    /// is a question for the file system, asked by the caller.)
    pub fn validate_config(&self, config: &Config) -> (r: Result<(), ScrapingError>)
        ensures
            r is Ok <==> config_valid(*config),
            r matches Err(e) ==> e is ConfigError,
    {
        if config.streamers.len() == 0 {
            return Err(ScrapingError::ConfigError(String::from_str("Streamers list cannot be empty")));
        }
        let mut i: usize = 0;
        while i < config.streamers.len()
            invariant
                i <= config.streamers@.len(),
                forall|j: int| 0 <= j < i ==> valid_streamer(#[trigger] config.streamers@[j]),
            decreases config.streamers@.len() - i,
        {
            let name = config.streamers[i].as_str();
            if is_blank(name) {
                return Err(ScrapingError::ConfigError(String::from_str("Streamer name cannot be empty")));
            }
            if contains_char(name, ' ') {
                return Err(ScrapingError::ConfigError(String::from_str("Streamer name cannot contain spaces: ").concat(name)));
            }
            if name.as_bytes().len() > 25 {
                return Err(ScrapingError::ConfigError(String::from_str("Streamer name is too long (max 25 characters): ").concat(name)));
            }
            assert(name@ == config.streamers@[i as int]@);
            assert(!blank(config.streamers@[i as int]@));
            assert(!holds_char(config.streamers@[i as int]@, ' '));
            assert(vstd::utf8::encode_utf8(config.streamers@[i as int]@).len() <= 25);
            assert(valid_streamer(config.streamers@[i as int]));
            i = i + 1;
        }
        if config.agents.max_concurrent == 0 {
            return Err(ScrapingError::ConfigError(String::from_str("max_concurrent must be greater than 0")));
        }
        if config.agents.max_concurrent > 50 {
            return Err(ScrapingError::ConfigError(String::from_str("max_concurrent cannot exceed 50 for resource safety")));
        }
        if config.agents.retry_attempts > 10 {
            return Err(ScrapingError::ConfigError(String::from_str("retry_attempts cannot exceed 10")));
        }
        if config.agents.delay_range.min_ms >= config.agents.delay_range.max_ms {
            return Err(ScrapingError::ConfigError(String::from_str("delay_range minimum must be less than maximum")));
        }
        if config.agents.delay_range.max_ms > 60000 {
            return Err(ScrapingError::ConfigError(String::from_str("delay_range maximum cannot exceed 60 seconds")));
        }
        let proxies_ok = match &config.agents.proxy_list {
            Some(proxies) => all_host_port(proxies),
            None => true,
        };
        if !proxies_ok {
            return Err(ScrapingError::ConfigError(String::from_str("Invalid proxy format, expected 'host:port'")));
        }
        let format = config.output.format.as_str();
        if !(crate::text::same_text(format, "json") || crate::text::same_text(format, "csv")
            || crate::text::same_text(format, "custom")) {
            return Err(ScrapingError::ConfigError(String::from_str("Invalid output format, must be one of json, csv, custom: ").concat(format)));
        }
        if !Self::is_valid_size_format(config.output.rotation_size.as_str()) {
            return Err(ScrapingError::ConfigError(String::from_str("Invalid rotation_size format, expected format like '100MB', '1GB': ").concat(config.output.rotation_size.as_str())));
        }
        if !Self::is_valid_time_format(config.output.rotation_time.as_str()) {
            return Err(ScrapingError::ConfigError(String::from_str("Invalid rotation_time format, expected format like '1h', '30m', '1d': ").concat(config.output.rotation_time.as_str())));
        }
        if config.monitoring.api_port < 1024 {
            return Err(ScrapingError::ConfigError(String::from_str("api_port must be between 1024 and 65535")));
        }
        if let Some(url) = &config.monitoring.webhook_url {
            if !starts_with(url.as_str(), "http://") && !starts_with(url.as_str(), "https://") {
                return Err(ScrapingError::ConfigError(String::from_str("webhook_url must start with http:// or https://")));
            }
        }
        proof {
            reveal_strlit("http://");
            reveal_strlit("https://");
        }
        Ok(())
    }
}

} // verus!
