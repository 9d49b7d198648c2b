//! Log categories and the log records delivered to log and trace sinks.
use vstd::prelude::*;
use crate::type_discovery::{first_nul, lemma_first_nul, string_from_utf8_lossy, utf8_lossy};

verus! {

/// A bit-mask of log category / priority levels.
#[derive(Debug, Clone, Copy, PartialEq, Eq)]
pub struct LogCategory(pub u32);

impl LogCategory {
    /// No categories.
    pub fn none() -> (r: LogCategory)
        ensures
            r == LogCategory(0x0),
    {
        LogCategory(0x0)
    }

    /// Fatal errors.
    pub fn fatal() -> (r: LogCategory)
        ensures
            r == LogCategory(0x1),
    {
        LogCategory(0x1)
    }

    /// Non-fatal errors.
    pub fn error() -> (r: LogCategory)
        ensures
            r == LogCategory(0x2),
    {
        LogCategory(0x2)
    }

    /// Warnings.
    pub fn warning() -> (r: LogCategory)
        ensures
            r == LogCategory(0x4),
    {
        LogCategory(0x4)
    }

    /// Informational messages.
    pub fn info() -> (r: LogCategory)
        ensures
            r == LogCategory(0x8),
    {
        LogCategory(0x8)
    }

    /// Debug-level messages.
    pub fn debug() -> (r: LogCategory)
        ensures
            r == LogCategory(0x10),
    {
        LogCategory(0x10)
    }

    /// Fine-grained trace messages.
    pub fn trace() -> (r: LogCategory)
        ensures
            r == LogCategory(0x20),
    {
        LogCategory(0x20)
    }

    /// All categories combined.
    pub fn all() -> (r: LogCategory)
        ensures
            r == LogCategory(0x3f),
    {
        LogCategory(0x3f)
    }
}

impl core::ops::BitOr for LogCategory {
    type Output = Self;

    fn bitor(self, rhs: Self) -> (r: Self) {
        LogCategory(self.0 | rhs.0)
    }
}

impl vstd::std_specs::ops::BitOrSpecImpl for LogCategory {
    open spec fn obeys_bitor_spec() -> bool {
        true
    }

    open spec fn bitor_req(self, rhs: Self) -> bool {
        true
    }

    open spec fn bitor_spec(self, rhs: Self) -> Self {
        LogCategory(self.0 | rhs.0)
    }
}

impl core::ops::BitOrAssign for LogCategory {
    fn bitor_assign(&mut self, rhs: Self)
        ensures
            final(self).0 == old(self).0 | rhs.0,
    {
        self.0 = self.0 | rhs.0;
    }
}

/// A single log message delivered to a sink.
#[derive(Debug, Clone)]
pub struct LogEntry {
    /// The formatted log message.
    pub message: String,
    /// Category / priority of the message.
    pub category: LogCategory,
    /// Source file name (if available).
    pub file: Option<String>,
    /// Source line number (if available).
    pub line: Option<u32>,
    /// Source function name (if available).
    pub function: Option<String>,
    /// DDS domain id (`None` for global messages).
    pub domain_id: Option<u32>,
}

/// The bytes of a log message that carry its text: those before the first
/// zero byte, or all of them when there is none.
pub open spec fn message_prefix(bytes: Seq<u8>) -> Seq<u8> {
    let k = first_nul(bytes);
    if k == -1 {
        bytes
    } else {
        bytes.take(k)
    }
}

/// The text of a raw log message: empty for no bytes, else the text bytes
/// decoded as `String::from_utf8_lossy` does.
pub open spec fn log_message_text(bytes: Seq<u8>) -> Seq<char> {
    if bytes.len() == 0 {
        Seq::empty()
    } else {
        utf8_lossy(message_prefix(bytes))
    }
}

/// Decodes the message buffer of a raw log record.
pub fn log_message_from_bytes(bytes: &[u8]) -> (r: String)
    ensures
        r@ == log_message_text(bytes@),
{
    if bytes.len() == 0 {
        return String::new();
    }
    proof {
        lemma_first_nul(bytes@);
    }
    let mut prefix: Vec<u8> = Vec::new();
    let mut i: usize = 0;
    while i < bytes.len() && bytes[i] != 0
        invariant
            0 <= i <= bytes@.len(),
            prefix@ == bytes@.take(i as int),
            forall|j: int| 0 <= j < i ==> bytes@[j] != 0,
        decreases bytes@.len() - i,
    {
        prefix.push(bytes[i]);
        i += 1;
        assert(prefix@ =~= bytes@.take(i as int));
    }
    proof {
        let k = first_nul(bytes@);
        if i < bytes@.len() {
            if k < i {
                assert(bytes@[k] != 0);
            }
            if k > i {
                assert(bytes@[i as int] != 0);
            }
            assert(k == i);
        } else {
            assert(k == -1);
            assert(prefix@ =~= bytes@);
        }
    }
    string_from_utf8_lossy(prefix.as_slice())
}

/// The domain id a raw record names: `u32::MAX` means "global".
pub open spec fn domain_of(domid: u32) -> Option<u32> {
    if domid == u32::MAX {
        None
    } else {
        Some(domid)
    }
}

/// Builds the entry a sink receives from the fields of a raw log record.
/// A line of 0 means "unknown".
pub fn log_entry_from_record(
    message: &[u8],
    priority: u32,
    file: Option<String>,
    line: u32,
    function: Option<String>,
    domid: u32,
) -> (r: LogEntry)
    ensures
        r.message@ == log_message_text(message@),
        r.category == LogCategory(priority),
        r.file == file,
        r.line == (if line == 0 { None } else { Some(line) }),
        r.function == function,
        r.domain_id == domain_of(domid),
{
    let domain_id = if domid == u32::MAX {
        None
    } else {
        Some(domid)
    };
    LogEntry {
        message: log_message_from_bytes(message),
        category: LogCategory(priority),
        file,
        line: if line == 0 {
            None
        } else {
            Some(line)
        },
        function,
        domain_id,
    }
}

/// The two sinks that log records are delivered to.
#[derive(Debug, Clone, Copy, PartialEq, Eq, Structural)]
pub enum LogSink {
    Log,
    Trace,
}

/// The sinks that receive a record, chosen by the tag that its sink was
/// registered with: the log sink's tag delivers to the log sink only, the
/// trace sink's to the trace sink only, and a record without a known tag
/// goes to both, log first, so that no line is lost and none is delivered
/// twice by one sink.
pub fn sinks_for_tag(tag: Option<LogSink>) -> (r: Vec<LogSink>)
    ensures
        r@ == match tag {
            Some(LogSink::Log) => seq![LogSink::Log],
            Some(LogSink::Trace) => seq![LogSink::Trace],
            None => seq![LogSink::Log, LogSink::Trace],
        },
{
    let mut r: Vec<LogSink> = Vec::new();
    match tag {
        Some(LogSink::Log) => {
            r.push(LogSink::Log);
        },
        Some(LogSink::Trace) => {
            r.push(LogSink::Trace);
        },
        None => {
            r.push(LogSink::Log);
            r.push(LogSink::Trace);
        },
    }
    assert(r@ =~= match tag {
        Some(LogSink::Log) => seq![LogSink::Log],
        Some(LogSink::Trace) => seq![LogSink::Trace],
        None => seq![LogSink::Log, LogSink::Trace],
    });
    r
}

} // verus!
