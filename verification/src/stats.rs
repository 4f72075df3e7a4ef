//! Runtime statistics of the agent and the reports that its HTTP endpoints serve.

use vstd::prelude::*;
use crate::clock::{rfc3339_limit, rfc3339_seconds};

verus! {

/// Counters kept while messages are processed. Times are whole seconds since
/// the Unix epoch.
#[derive(Debug, Clone)]
pub struct RuntimeStats {
    pub messages_processed: u64,
    pub last_message_time: Option<u64>,
    pub errors: u64,
}

impl Default for RuntimeStats {
    fn default() -> (s: Self)
        ensures
            s.messages_processed == 0,
            s.last_message_time is None,
            s.errors == 0,
    {
        RuntimeStats { messages_processed: 0, last_message_time: None, errors: 0 }
    }
}

impl RuntimeStats {
    /// Counts one processed message, handled at `now`.
    pub fn increment_messages(&mut self, now: u64)
        requires
            old(self).messages_processed < u64::MAX,
        ensures
            final(self).messages_processed == old(self).messages_processed + 1,
            final(self).last_message_time == Some(now),
            final(self).errors == old(self).errors,
    {
        self.messages_processed = self.messages_processed + 1;
        self.last_message_time = Some(now);
    }

    /// Counts one error.
    pub fn increment_errors(&mut self)
        requires
            old(self).errors < u64::MAX,
        ensures
            final(self).errors == old(self).errors + 1,
            final(self).messages_processed == old(self).messages_processed,
            final(self).last_message_time == old(self).last_message_time,
    {
        self.errors = self.errors + 1;
    }
}

/// The answer of the health endpoint.
#[derive(Debug, Clone)]
pub struct HealthReport {
    pub status: String,
}

/// The health endpoint's answer: status `ok`.
pub fn health_report() -> (h: HealthReport)
    ensures
        h.status@ == "ok"@,
{
    HealthReport { status: "ok".to_owned() }
}

/// The answer of the status endpoint.
#[derive(Debug, Clone)]
pub struct StatusReport {
    pub uptime_seconds: u64,
    pub memory_usage_mb: u64,
    pub messages_processed: u64,
    pub last_message_time: Option<String>,
    pub errors: u64,
}

/// Calls `humantime::format_rfc3339_seconds` on the moment `secs` seconds after
/// the epoch and writes it with `to_string`. Its `Display` fails (and `to_string`
/// panics) from year 10000 on, hence the bound. The contract states the text,
/// `YYYY-MM-DDTHH:MM:SSZ` in the proleptic Gregorian calendar, as humantime
/// computes and lays it out.
#[verifier::external_body]
fn format_rfc3339_seconds(secs: u64) -> (s: String)
    requires
        secs < rfc3339_limit(),
    ensures
        s@ == rfc3339_seconds(secs as nat),
{
    let t = std::time::UNIX_EPOCH + std::time::Duration::from_secs(secs);
    humantime::format_rfc3339_seconds(t).to_string()
}

/// The last message time as the status endpoint writes it.
pub open spec fn written_time(t: Option<u64>) -> Option<Seq<char>> {
    match t {
        Some(secs) => Some(rfc3339_seconds(secs as nat)),
        None => None,
    }
}

/// The status endpoint's answer for `stats`, an uptime in seconds and the
/// memory in use in bytes: memory is reported in whole mebibytes, the last
/// message time in RFC 3339 to the second.
pub fn status_report(stats: &RuntimeStats, uptime_seconds: u64, used_memory_bytes: u64) -> (r:
    StatusReport)
    requires
        stats.last_message_time matches Some(t) ==> t < rfc3339_limit(),
    ensures
        r.uptime_seconds == uptime_seconds,
        r.memory_usage_mb == used_memory_bytes / 1024 / 1024,
        r.messages_processed == stats.messages_processed,
        r.errors == stats.errors,
        crate::config::opt_view(r.last_message_time) == written_time(stats.last_message_time),
{
    let last_message_time = match stats.last_message_time {
        Some(t) => Some(format_rfc3339_seconds(t)),
        None => None,
    };
    StatusReport {
        uptime_seconds,
        memory_usage_mb: used_memory_bytes / 1024 / 1024,
        messages_processed: stats.messages_processed,
        last_message_time,
        errors: stats.errors,
    }
}

} // verus!
