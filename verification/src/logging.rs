//! Tracing a request through the service: correlation identifiers, and the
//! line that reports how long an operation took.
//!
//! Nothing here writes a log. [`OperationTimer::log_completion`] makes the
//! record; handing it to a logger is left to the caller.

use vstd::prelude::*;
use vstd::string::*;
use crate::text::{decimal, has_prefix, starts_with, u64_to_string};

pub mod error_codes;

verus! {

/// A digit of lower-case hexadecimal.
pub open spec fn is_lower_hex(c: char) -> bool {
    ('0' <= c && c <= '9') || ('a' <= c && c <= 'f')
}

/// The shape of a random (version 4) UUID in its usual writing: 36
/// characters, lower-case hexadecimal in groups of 8, 4, 4, 4 and 12 with a
/// hyphen between two groups, the third group beginning with `4` and the
/// fourth with `8`, `9`, `a` or `b`.
pub open spec fn is_uuid_text(s: Seq<char>) -> bool {
    &&& s.len() == 36
    &&& forall|i: int|
        0 <= i < 36 ==> if i == 8 || i == 13 || i == 18 || i == 23 {
            #[trigger] s[i] == '-'
        } else {
            is_lower_hex(s[i])
        }
    &&& s[14] == '4'
    &&& (s[19] == '8' || s[19] == '9' || s[19] == 'a' || s[19] == 'b')
}

/// A new identifier under which the log lines of one request are found
/// again.
///
/// Calls `uuid::Uuid::new_v4` and writes the result out with `to_string`.
/// The value is random; the contract states the shape that every such
/// identifier has.
#[verifier::external_body]
pub fn generate_correlation_id() -> (id: String)
    ensures
        is_uuid_text(id@),
{
    uuid::Uuid::new_v4().to_string()
}

/// The identifier that came with a request, or a new one where none came.
pub fn extract_or_generate_correlation_id(headers: Option<&str>) -> (id: String)
    ensures
        match headers {
            Some(given) => id@ == given@,
            None => is_uuid_text(id@),
        },
{
    match headers {
        Some(given) => String::from_str(given),
        None => generate_correlation_id(),
    }
}

/// How much a log line matters.
#[derive(Debug, Clone, Copy, PartialEq, Eq, Structural)]
pub enum LogLevel {
    Debug,
    Info,
    Warn,
    Error,
}

/// A line for the log, and the level to write it at.
#[derive(Debug)]
pub struct LogRecord {
    pub level: LogLevel,
    pub line: String,
}

/// The layer of the service that an operation belongs to, by the prefix of
/// its name.
pub open spec fn layer_of(operation: Seq<char>) -> Seq<char> {
    if has_prefix(operation, "REST:"@) {
        "REST"@
    } else if has_prefix(operation, "SERVICE:"@) {
        "SERVICE"@
    } else if has_prefix(operation, "REPO:"@) {
        "REPO"@
    } else if has_prefix(operation, "MODEL:"@) {
        "MODEL"@
    } else {
        "UNKNOWN"@
    }
}

/// The line that reports the end of an operation.
pub open spec fn completion_text(
    operation: Seq<char>,
    req_id: Seq<char>,
    duration_ms: u64,
    category: Seq<char>,
    message: Seq<char>,
) -> Seq<char> {
    layer_of(operation) + ":"@ + operation + " ["@ + category + ":"@ + decimal(duration_ms as nat)
        + "ms] [req_id:"@ + req_id + "] "@ + message
}

#[verifier::external_type_specification]
#[verifier::external_body]
pub struct ExInstant(std::time::Instant);

/// Calls `std::time::Instant::now`. Nothing is promised of a reading of the
/// clock.
#[verifier::external_body]
fn instant_now() -> (now: std::time::Instant) {
    std::time::Instant::now()
}

/// Calls `Instant::elapsed` and hands on the whole milliseconds of the
/// duration, as `Duration::as_millis` counts them. Nothing is promised of the
/// time that has passed.
#[verifier::external_body]
fn elapsed_millis(start: &std::time::Instant) -> (millis: u128) {
    start.elapsed().as_millis()
}

/// A count of milliseconds cut to its lower 64 bits, as a clock reading is
/// when it is handed on as a `u64`.
pub fn cut_to_u64(millis: u128) -> (cut: u64)
    ensures
        cut == millis % 0x1_0000_0000_0000_0000,
        millis <= u64::MAX ==> cut == millis,
{
    assert((millis as u64) == millis % 0x1_0000_0000_0000_0000) by (bit_vector);
    #[verifier::truncate]
    (millis as u64)
}

/// Measures how long an operation takes.
pub struct OperationTimer {
    start: std::time::Instant,
    operation: String,
    req_id: String,
}

impl OperationTimer {
    /// The name of the operation that is timed.
    pub closed spec fn operation(&self) -> Seq<char> {
        self.operation@
    }

    /// The correlation identifier of the request that the operation serves.
    pub closed spec fn req_id(&self) -> Seq<char> {
        self.req_id@
    }

    /// Starts timing an operation.
    pub fn new(operation: &str, req_id: &str) -> (timer: Self)
        ensures
            timer.operation() == operation@,
            timer.req_id() == req_id@,
    {
        OperationTimer {
            start: instant_now(),
            operation: String::from_str(operation),
            req_id: String::from_str(req_id),
        }
    }

    /// The milliseconds that have passed since the timer was started, cut
    /// to 64 bits.
    pub fn elapsed_ms(&self) -> (millis: u64) {
        cut_to_u64(elapsed_millis(&self.start))
    }

    /// The record that reports the end of the operation now, at the given
    /// level.
    pub fn log_completion(&self, level: LogLevel, category: &str, message: &str) -> (record:
        LogRecord)
        ensures
            record.level == level,
            exists|duration_ms: u64|
                record.line@ == #[trigger] completion_text(
                    self.operation(),
                    self.req_id(),
                    duration_ms,
                    category@,
                    message@,
                ),
    {
        let duration = self.elapsed_ms();
        LogRecord { level, line: self.completion_line(duration, category, message) }
    }

    /// The line that reports the end of the operation after `duration_ms`
    /// milliseconds.
    pub fn completion_line(&self, duration_ms: u64, category: &str, message: &str) -> (line: String)
        ensures
            line@ == completion_text(
                self.operation(),
                self.req_id(),
                duration_ms,
                category@,
                message@,
            ),
    {
        let mut line = String::from_str(self.get_layer());
        line.append(":");
        line.append(self.operation.as_str());
        line.append(" [");
        line.append(category);
        line.append(":");
        line.append(u64_to_string(duration_ms).as_str());
        line.append("ms] [req_id:");
        line.append(self.req_id.as_str());
        line.append("] ");
        line.append(message);
        line
    }

    /// The layer of the service that the operation belongs to.
    pub fn get_layer(&self) -> (layer: &'static str)
        ensures
            layer@ == layer_of(self.operation()),
    {
        let operation = self.operation.as_str();
        if starts_with(operation, "REST:") {
            "REST"
        } else if starts_with(operation, "SERVICE:") {
            "SERVICE"
        } else if starts_with(operation, "REPO:") {
            "REPO"
        } else if starts_with(operation, "MODEL:") {
            "MODEL"
        } else {
            "UNKNOWN"
        }
    }
}

} // verus!
