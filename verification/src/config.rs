//! Configuration values of the forwarder and their defaults.
//!
//! Reading them from the environment is the application's part; this module holds the values,
//! their defaults and what is derived from them.
use crate::circuit_breaker;
use crate::text::chars_of;
use vstd::prelude::*;

verus! {

/// Logging levels, from the most to the least verbose.
#[derive(Debug, Clone, Copy, PartialEq, Eq, Structural)]
pub enum LogLevel {
    Trace,
    Debug,
    Info,
    Warn,
    Error,
}

/// `c` with ASCII upper-case letters turned to lower case.
pub open spec fn ascii_lower(c: char) -> char {
    if 'A' <= c && c <= 'Z' {
        ((c as u32) + 32) as char
    } else {
        c
    }
}

/// Whether `s` equals the lower-case ASCII word `word`, ignoring ASCII case.
pub open spec fn eq_ignore_ascii_case(s: Seq<char>, word: Seq<char>) -> bool {
    s.len() == word.len() && forall|i: int| 0 <= i < s.len() ==> #[trigger] ascii_lower(s[i]) == word[i]
}

/// The digits of a number: the text without its leading `+`, if any.
pub open spec fn level_digits(s: Seq<char>) -> Seq<char> {
    if s.len() > 0 && s[0] == '+' {
        s.drop_first()
    } else {
        s
    }
}

/// Whether every character of `d` but the last is `0`.
pub open spec fn leading_zeros_only(d: Seq<char>) -> bool {
    forall|i: int| 0 <= i < d.len() - 1 ==> #[trigger] d[i] == '0'
}

/// The level numbered `n` in decimal text `s` (an optional `+`, then ASCII digits) when that
/// number is 1 (error) to 5 (trace).
pub open spec fn numbered_level(s: Seq<char>) -> Option<LogLevel> {
    let d = level_digits(s);
    if d.len() >= 1 && leading_zeros_only(d) {
        let last = d.last();
        if last == '1' {
            Some(LogLevel::Error)
        } else if last == '2' {
            Some(LogLevel::Warn)
        } else if last == '3' {
            Some(LogLevel::Info)
        } else if last == '4' {
            Some(LogLevel::Debug)
        } else if last == '5' {
            Some(LogLevel::Trace)
        } else {
            None
        }
    } else {
        None
    }
}

/// The level a text names, as tracing's `Level::from_str` reads it: a number from 1 (error) to
/// 5 (trace), or one of the level names in any ASCII case.
pub open spec fn spec_parse_level(s: Seq<char>) -> Option<LogLevel> {
    if numbered_level(s) is Some {
        numbered_level(s)
    } else if eq_ignore_ascii_case(s, "error"@) {
        Some(LogLevel::Error)
    } else if eq_ignore_ascii_case(s, "warn"@) {
        Some(LogLevel::Warn)
    } else if eq_ignore_ascii_case(s, "info"@) {
        Some(LogLevel::Info)
    } else if eq_ignore_ascii_case(s, "debug"@) {
        Some(LogLevel::Debug)
    } else if eq_ignore_ascii_case(s, "trace"@) {
        Some(LogLevel::Trace)
    } else {
        None
    }
}

/// A text that reads as a level name (ignoring ASCII case) is no level number.
proof fn lemma_name_is_no_number(s: Seq<char>, word: Seq<char>)
    requires
        eq_ignore_ascii_case(s, word),
        word.len() >= 2,
        word[0] != '+' && word[0] != '0',
    ensures
        numbered_level(s) is None,
{
    assert(ascii_lower(s[0]) == word[0]);
    assert(s[0] != '+' && s[0] != '0');
    assert(level_digits(s) == s);
    assert(!leading_zeros_only(s));
}

/// Each level name, in any ASCII case, gives its own level: `error`, `warn`, `info`, `debug` and
/// `trace` give five different levels, from the least to the most verbose.
pub proof fn lemma_level_names(s: Seq<char>)
    ensures
        eq_ignore_ascii_case(s, "error"@) ==> spec_parse_level(s) == Some(LogLevel::Error),
        eq_ignore_ascii_case(s, "warn"@) ==> spec_parse_level(s) == Some(LogLevel::Warn),
        eq_ignore_ascii_case(s, "info"@) ==> spec_parse_level(s) == Some(LogLevel::Info),
        eq_ignore_ascii_case(s, "debug"@) ==> spec_parse_level(s) == Some(LogLevel::Debug),
        eq_ignore_ascii_case(s, "trace"@) ==> spec_parse_level(s) == Some(LogLevel::Trace),
{
    reveal_strlit("error");
    reveal_strlit("warn");
    reveal_strlit("info");
    reveal_strlit("debug");
    reveal_strlit("trace");
    let words = seq!["error"@, "warn"@, "info"@, "debug"@, "trace"@];
    assert forall|i: int, j: int|
        0 <= i < 5 && 0 <= j < 5 && i != j && eq_ignore_ascii_case(s, #[trigger] words[i]) implies !eq_ignore_ascii_case(
        s,
        #[trigger] words[j],
    ) by {
        if eq_ignore_ascii_case(s, words[j]) {
            assert(ascii_lower(s[0]) == words[i][0]);
            assert(ascii_lower(s[0]) == words[j][0]);
        }
    }
    if eq_ignore_ascii_case(s, "error"@) {
        lemma_name_is_no_number(s, "error"@);
        assert(words[0] == "error"@);
    }
    if eq_ignore_ascii_case(s, "warn"@) {
        lemma_name_is_no_number(s, "warn"@);
        assert(words[1] == "warn"@);
        assert(!eq_ignore_ascii_case(s, words[0]));
    }
    if eq_ignore_ascii_case(s, "info"@) {
        lemma_name_is_no_number(s, "info"@);
        assert(words[2] == "info"@);
        assert(!eq_ignore_ascii_case(s, words[0]));
        assert(!eq_ignore_ascii_case(s, words[1]));
    }
    if eq_ignore_ascii_case(s, "debug"@) {
        lemma_name_is_no_number(s, "debug"@);
        assert(words[3] == "debug"@);
        assert(!eq_ignore_ascii_case(s, words[0]));
        assert(!eq_ignore_ascii_case(s, words[1]));
        assert(!eq_ignore_ascii_case(s, words[2]));
    }
    if eq_ignore_ascii_case(s, "trace"@) {
        lemma_name_is_no_number(s, "trace"@);
        assert(words[4] == "trace"@);
        assert(!eq_ignore_ascii_case(s, words[0]));
        assert(!eq_ignore_ascii_case(s, words[1]));
        assert(!eq_ignore_ascii_case(s, words[2]));
        assert(!eq_ignore_ascii_case(s, words[3]));
    }
}

/// The level numbers 1 to 5 give error, warn, info, debug and trace.
pub proof fn lemma_level_numbers()
    ensures
        spec_parse_level("1"@) == Some(LogLevel::Error),
        spec_parse_level("2"@) == Some(LogLevel::Warn),
        spec_parse_level("3"@) == Some(LogLevel::Info),
        spec_parse_level("4"@) == Some(LogLevel::Debug),
        spec_parse_level("5"@) == Some(LogLevel::Trace),
{
    reveal_strlit("1");
    reveal_strlit("2");
    reveal_strlit("3");
    reveal_strlit("4");
    reveal_strlit("5");
}

fn lower(c: char) -> (r: char)
    ensures
        r == ascii_lower(c),
{
    if 'A' <= c && c <= 'Z' {
        ((c as u8) + 32) as char
    } else {
        c
    }
}

fn matches_word(s: &Vec<char>, word: &str) -> (r: bool)
    ensures
        r == eq_ignore_ascii_case(s@, word@),
{
    let w = chars_of(word);
    if s.len() != w.len() {
        return false;
    }
    let mut i: usize = 0;
    while i < s.len()
        invariant
            s@.len() == w@.len(),
            w@ == word@,
            i <= s@.len(),
            forall|j: int| 0 <= j < i ==> #[trigger] ascii_lower(s@[j]) == w@[j],
        decreases s@.len() - i,
    {
        if lower(s[i]) != w[i] {
            return false;
        }
        i += 1;
    }
    true
}

fn parse_numbered_level(s: &Vec<char>) -> (r: Option<LogLevel>)
    ensures
        r == numbered_level(s@),
{
    let start: usize = if s.len() > 0 && s[0] == '+' {
        1
    } else {
        0
    };
    let ghost d = level_digits(s@);
    assert(d =~= s@.subrange(start as int, s@.len() as int));
    if s.len() <= start {
        return None;
    }
    let mut i: usize = start;
    while i < s.len() - 1
        invariant
            start <= i <= s@.len() - 1,
            d =~= s@.subrange(start as int, s@.len() as int),
            d == level_digits(s@),
            forall|j: int| 0 <= j < i - start ==> d[j] == '0',
        decreases s@.len() - i,
    {
        if s[i] != '0' {
            assert(d[i - start] != '0');
            assert(!leading_zeros_only(d));
            return None;
        }
        i += 1;
    }
    let last = s[s.len() - 1];
    assert(last == d.last());
    if last == '1' {
        Some(LogLevel::Error)
    } else if last == '2' {
        Some(LogLevel::Warn)
    } else if last == '3' {
        Some(LogLevel::Info)
    } else if last == '4' {
        Some(LogLevel::Debug)
    } else if last == '5' {
        Some(LogLevel::Trace)
    } else {
        None
    }
}

/// Reads a logging level from text: a number from 1 (error) to 5 (trace), or a level name in
/// any ASCII case.
pub fn parse_level(s: &str) -> (r: Option<LogLevel>)
    ensures
        r == spec_parse_level(s@),
{
    let cs = chars_of(s);
    let n = parse_numbered_level(&cs);
    if n.is_some() {
        return n;
    }
    if matches_word(&cs, "error") {
        Some(LogLevel::Error)
    } else if matches_word(&cs, "warn") {
        Some(LogLevel::Warn)
    } else if matches_word(&cs, "info") {
        Some(LogLevel::Info)
    } else if matches_word(&cs, "debug") {
        Some(LogLevel::Debug)
    } else if matches_word(&cs, "trace") {
        Some(LogLevel::Trace)
    } else {
        None
    }
}

/// The log level used when none is configured: "info".
pub fn default_log_level() -> (r: String)
    ensures
        r@ == "info"@,
{
    String::from_str("info")
}

/// Application-wide configuration settings.
#[derive(Debug, Clone, PartialEq, Eq)]
pub struct AppConfig {
    /// Logging level (trace, debug, info, warn, error); "info" by default
    pub log_level: String,
}

impl AppConfig {
    /// The configured logging level; info when the text names no level.
    pub fn log_level(&self) -> (r: LogLevel)
        ensures
            r == match spec_parse_level(self.log_level@) {
                Some(l) => l,
                None => LogLevel::Info,
            },
    {
        match parse_level(self.log_level.as_str()) {
            Some(l) => l,
            None => LogLevel::Info,
        }
    }
}

/// Default interval for collecting real-time status metrics: 5 seconds.
pub fn default_status_interval_sec() -> (r: u64)
    ensures
        r == 5,
{
    5
}

/// Default interval for collecting daily total metrics: 60 seconds.
pub fn default_total_interval_sec() -> (r: u64)
    ensures
        r == 60,
{
    60
}

/// Default number of days of history to collect on startup: 30.
pub fn default_total_initial_days() -> (r: u64)
    ensures
        r == 30,
{
    30
}

/// Default timeout for collector tasks: 10 seconds.
pub fn default_task_timeout_seconds() -> (r: u64)
    ensures
        r == 10,
{
    10
}

/// Default number of consecutive failures before opening the circuit: 5.
pub fn default_circuit_breaker_failure_threshold() -> (r: u32)
    ensures
        r == 5,
{
    5
}

/// Default recovery timeout: 60 seconds.
pub fn default_circuit_breaker_recovery_timeout_seconds() -> (r: u64)
    ensures
        r == 60,
{
    60
}

/// Default number of successful calls that close the circuit from half-open: 3.
pub fn default_circuit_breaker_half_open_success_threshold() -> (r: u32)
    ensures
        r == 3,
{
    3
}

/// Default number of half-open failures that reopen the circuit: 1.
pub fn default_circuit_breaker_half_open_failure_threshold() -> (r: u32)
    ensures
        r == 1,
{
    1
}

/// Configuration for metric collection intervals and behavior.
#[derive(Debug, Clone, Copy, PartialEq, Eq, Structural)]
pub struct CollectorConfig {
    /// Interval for collecting real-time status metrics (power, climate), in seconds
    pub status_interval_sec: u64,
    /// Interval for collecting daily total metrics, in seconds
    pub total_interval_sec: u64,
    /// Number of past days to collect when starting up
    pub total_initial_days: u64,
    /// Timeout for individual collector tasks, in seconds
    pub task_timeout_seconds: u64,
}

impl Default for CollectorConfig {
    /// Every value at its default.
    fn default() -> (r: Self)
        ensures
            r.status_interval_sec == 5,
            r.total_interval_sec == 60,
            r.total_initial_days == 30,
            r.task_timeout_seconds == 10,
    {
        CollectorConfig {
            status_interval_sec: default_status_interval_sec(),
            total_interval_sec: default_total_interval_sec(),
            total_initial_days: default_total_initial_days(),
            task_timeout_seconds: default_task_timeout_seconds(),
        }
    }
}

/// Configuration for circuit breaker behavior, as read from the environment.
#[derive(Debug, Clone, Copy, PartialEq, Eq, Structural)]
pub struct CircuitBreakerConfig {
    /// Number of consecutive failures before opening circuit
    pub failure_threshold: u32,
    /// How long to wait before attempting recovery, in seconds
    pub recovery_timeout_seconds: u64,
    /// Number of successful calls needed to close circuit from half-open
    pub half_open_success_threshold: u32,
    /// Number of failures allowed in half-open before reopening
    pub half_open_failure_threshold: u32,
}

impl Default for CircuitBreakerConfig {
    /// Every value at its default.
    fn default() -> (r: Self)
        ensures
            r.failure_threshold == 5,
            r.recovery_timeout_seconds == 60,
            r.half_open_success_threshold == 3,
            r.half_open_failure_threshold == 1,
    {
        CircuitBreakerConfig {
            failure_threshold: default_circuit_breaker_failure_threshold(),
            recovery_timeout_seconds: default_circuit_breaker_recovery_timeout_seconds(),
            half_open_success_threshold: default_circuit_breaker_half_open_success_threshold(),
            half_open_failure_threshold: default_circuit_breaker_half_open_failure_threshold(),
        }
    }
}

impl CircuitBreakerConfig {
    /// The breaker's own configuration: the same thresholds, the timeout in milliseconds
    /// (the largest `u64` when that many milliseconds do not fit).
    pub fn to_breaker_config(&self) -> (r: circuit_breaker::CircuitBreakerConfig)
        ensures
            r.failure_threshold == self.failure_threshold,
            r.recovery_timeout == if self.recovery_timeout_seconds * 1000 <= u64::MAX {
                (self.recovery_timeout_seconds * 1000) as u64
            } else {
                u64::MAX
            },
            r.half_open_success_threshold == self.half_open_success_threshold,
            r.half_open_failure_threshold == self.half_open_failure_threshold,
    {
        let millis = if self.recovery_timeout_seconds <= u64::MAX / 1000 {
            self.recovery_timeout_seconds * 1000
        } else {
            u64::MAX
        };
        circuit_breaker::CircuitBreakerConfig {
            failure_threshold: self.failure_threshold,
            recovery_timeout: millis,
            half_open_success_threshold: self.half_open_success_threshold,
            half_open_failure_threshold: self.half_open_failure_threshold,
        }
    }
}

/// Configuration for connecting to the AiSEG2 system.
#[derive(Debug, Clone, PartialEq, Eq)]
pub struct Aiseg2Config {
    /// Base URL of the AiSEG2 system (e.g., "http://192.168.1.100")
    pub url: String,
    /// Username for AiSEG2 authentication
    pub user: String,
    /// Password for AiSEG2 authentication
    pub password: String,
}

/// Configuration for connecting to InfluxDB 2.x.
#[derive(Debug, Clone, PartialEq, Eq)]
pub struct InfluxConfig {
    /// InfluxDB server URL (e.g., "http://localhost:8086")
    pub url: String,
    /// Authentication token with write permissions
    pub token: String,
    /// InfluxDB organization name
    pub org: String,
    /// Target bucket for storing metrics
    pub bucket: String,
}

} // verus!
