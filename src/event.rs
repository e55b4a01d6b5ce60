use vstd::prelude::*;
use vstd::string::StringExecFns;
use crate::http_client::HttpResponse;
use crate::text::{has_prefix, starts_with, trim, trimmed};

verus! {

/// Log levels, lowest to highest, with success kept apart.
#[derive(Debug, Clone, Copy, PartialEq, Eq, Structural)]
pub enum LogLevel {
    Debug,
    Info,
    Warn,
    Error,
    Success,
}

/// The display name of a level.
pub open spec fn level_name(l: LogLevel) -> Seq<char> {
    match l {
        LogLevel::Debug => "DEBUG"@,
        LogLevel::Info => "INFO"@,
        LogLevel::Warn => "WARN"@,
        LogLevel::Error => "ERROR"@,
        LogLevel::Success => "SUCCESS"@,
    }
}

impl LogLevel {
    pub fn as_str(&self) -> (r: &'static str)
        ensures
            r@ == level_name(*self),
    {
        match self {
            LogLevel::Debug => "DEBUG",
            LogLevel::Info => "INFO",
            LogLevel::Warn => "WARN",
            LogLevel::Error => "ERROR",
            LogLevel::Success => "SUCCESS",
        }
    }
}

/// A wall-clock time of day.
#[derive(Debug, Clone, Copy, PartialEq, Eq, Structural)]
pub struct ClockTime {
    pub hour: u8,
    pub minute: u8,
    pub second: u8,
}

impl ClockTime {
    pub open spec fn wf(self) -> bool {
        self.hour < 24 && self.minute < 60 && self.second < 60
    }
}

/// Relies on `chrono::Local::now` with `Timelike::{hour, minute, second}`, which
/// give an hour below 24 and a minute and a second below 60.
#[verifier::external_body]
fn local_clock_now() -> (r: ClockTime)
    ensures
        r.wf(),
{
    let now = chrono::Local::now();
    ClockTime {
        hour: chrono::Timelike::hour(&now) as u8,
        minute: chrono::Timelike::minute(&now) as u8,
        second: chrono::Timelike::second(&now) as u8,
    }
}

/// A single log line with the time it was recorded.
#[derive(Debug, Clone)]
pub struct LogEntry {
    pub timestamp: ClockTime,
    pub level: LogLevel,
    pub message: String,
}

impl LogEntry {
    /// A log entry stamped with the current local time.
    pub fn new(level: LogLevel, message: String) -> (r: LogEntry)
        ensures
            r.level == level,
            r.message == message,
            r.timestamp.wf(),
    {
        LogEntry { timestamp: local_clock_now(), level, message }
    }
}

/// Messages that background tasks hand to the UI loop.
#[derive(Debug, Clone, PartialEq)]
pub enum AppMessage {
    /// Log a message to the logging panel
    Log(LogLevel, String),
    /// Automation has completed successfully
    AutomationComplete,
    /// Automation has failed with an error
    AutomationFailed(String),
    /// Progress update from automation
    AutomationProgress(String),
    /// Request to quit the application
    Quit,
    /// Response from an HTTP call
    HttpResponseReceived(HttpResponse),
    /// HTTP request failed
    HttpRequestFailed(String),
}

/// What a message says, with its texts as character sequences.
pub enum Event {
    Log(LogLevel, Seq<char>),
    Completed,
    Failed(Seq<char>),
    Progress(Seq<char>),
    Quit,
    Response(HttpResponse),
    RequestFailed(Seq<char>),
}

impl View for AppMessage {
    type V = Event;

    open spec fn view(&self) -> Event {
        match self {
            AppMessage::Log(l, m) => Event::Log(*l, m@),
            AppMessage::AutomationComplete => Event::Completed,
            AppMessage::AutomationFailed(m) => Event::Failed(m@),
            AppMessage::AutomationProgress(m) => Event::Progress(m@),
            AppMessage::Quit => Event::Quit,
            AppMessage::HttpResponseReceived(r) => Event::Response(*r),
            AppMessage::HttpRequestFailed(m) => Event::RequestFailed(m@),
        }
    }
}

/// Whether an event ends an automation run.
pub open spec fn is_terminal(e: Event) -> bool {
    e is Completed || e is Failed
}

/// Prefix that marks worker output carrying no recognised tag.
pub open spec fn passthrough_marker() -> Seq<char> {
    "\u{1F40D} "@
}

/// Prefix that marks untagged worker diagnostics.
pub open spec fn diagnostic_marker() -> Seq<char> {
    "\u{1F40D} Error: "@
}

/// The payload of a tagged line: what follows the tag, trimmed.
pub open spec fn payload(line: Seq<char>, tag: Seq<char>) -> Seq<char> {
    trimmed(line.subrange(tag.len() as int, line.len() as int))
}

/// The event a tagged line stands for; `None` when no tag matches.
pub open spec fn tagged_event(line: Seq<char>) -> Option<Event> {
    if has_prefix(line, "PROGRESS:"@) {
        Some(Event::Progress(payload(line, "PROGRESS:"@)))
    } else if has_prefix(line, "ERROR:"@) {
        Some(Event::Log(LogLevel::Error, payload(line, "ERROR:"@)))
    } else if has_prefix(line, "SUCCESS:"@) {
        Some(Event::Log(LogLevel::Success, payload(line, "SUCCESS:"@)))
    } else if has_prefix(line, "INFO:"@) {
        Some(Event::Log(LogLevel::Info, payload(line, "INFO:"@)))
    } else if has_prefix(line, "DEBUG:"@) {
        Some(Event::Log(LogLevel::Debug, payload(line, "DEBUG:"@)))
    } else if has_prefix(line, "WARN:"@) {
        Some(Event::Log(LogLevel::Warn, payload(line, "WARN:"@)))
    } else {
        None
    }
}

/// The event for a line of the worker's standard output.
pub open spec fn output_event(line: Seq<char>) -> Event {
    match tagged_event(line) {
        Some(e) => e,
        None => Event::Log(LogLevel::Info, passthrough_marker() + line),
    }
}

/// The event for a line of the worker's standard error.
pub open spec fn error_event(line: Seq<char>) -> Event {
    match tagged_event(line) {
        Some(e) => e,
        None => Event::Log(LogLevel::Error, diagnostic_marker() + line),
    }
}

/// The payload after `tag`, trimmed, when `line` starts with it.
fn strip_tag(line: &str, tag: &str) -> (r: Option<String>)
    ensures
        r is Some <==> has_prefix(line@, tag@),
        r matches Some(p) ==> p@ == payload(line@, tag@),
{
    if starts_with(line, tag) {
        let rest = line.substring_char(tag.unicode_len(), line.unicode_len());
        Some(trim(rest))
    } else {
        None
    }
}

fn decode_tagged(line: &str) -> (r: Option<AppMessage>)
    ensures
        match tagged_event(line@) {
            Some(e) => r matches Some(m) && m@ == e,
            None => r is None,
        },
{
    if let Some(p) = strip_tag(line, "PROGRESS:") {
        return Some(AppMessage::AutomationProgress(p));
    }
    if let Some(p) = strip_tag(line, "ERROR:") {
        return Some(AppMessage::Log(LogLevel::Error, p));
    }
    if let Some(p) = strip_tag(line, "SUCCESS:") {
        return Some(AppMessage::Log(LogLevel::Success, p));
    }
    if let Some(p) = strip_tag(line, "INFO:") {
        return Some(AppMessage::Log(LogLevel::Info, p));
    }
    if let Some(p) = strip_tag(line, "DEBUG:") {
        return Some(AppMessage::Log(LogLevel::Debug, p));
    }
    if let Some(p) = strip_tag(line, "WARN:") {
        return Some(AppMessage::Log(LogLevel::Warn, p));
    }
    None
}

/// Turns one line of worker output into a message; lines without a known tag
/// are passed through as information.
pub fn decode_output_line(line: &str) -> (r: AppMessage)
    ensures
        r@ == output_event(line@),
{
    match decode_tagged(line) {
        Some(m) => m,
        None => AppMessage::Log(LogLevel::Info, String::from_str("\u{1F40D} ").concat(line)),
    }
}

/// Turns one line of worker diagnostics into a message; lines without a known
/// tag are reported as errors.
pub fn decode_error_line(line: &str) -> (r: AppMessage)
    ensures
        r@ == error_event(line@),
{
    match decode_tagged(line) {
        Some(m) => m,
        None => AppMessage::Log(
            LogLevel::Error,
            String::from_str("\u{1F40D} Error: ").concat(line),
        ),
    }
}

/// A number below 100 as two digits.
pub open spec fn two_digits(n: nat) -> Seq<char> {
    seq!["0123456789"@[(n / 10) as int], "0123456789"@[(n % 10) as int]]
}

/// A text padded on the left with spaces to at least `width` characters.
pub open spec fn pad_left(s: Seq<char>, width: nat) -> Seq<char> {
    if s.len() < width {
        Seq::new((width - s.len()) as nat, |i: int| ' ') + s
    } else {
        s
    }
}

fn two_digit_text(n: u8) -> (r: String)
    requires
        n < 100,
    ensures
        r@ == two_digits(n as nat),
{
    proof {
        reveal_strlit("0123456789");
    }
    let digits = "0123456789";
    let hi = (n / 10) as usize;
    let lo = (n % 10) as usize;
    let r = String::from_str(digits.substring_char(hi, hi + 1)).concat(
        digits.substring_char(lo, lo + 1),
    );
    assert(r@ =~= two_digits(n as nat));
    r
}

impl LogEntry {
    /// The entry as shown in the log panel: `[HH:MM:SS] LEVEL message`, with
    /// the level right-aligned in seven columns.
    pub fn formatted(&self) -> (r: String)
        requires
            self.timestamp.wf(),
        ensures
            r@ == "["@ + two_digits(self.timestamp.hour as nat) + ":"@ + two_digits(
                self.timestamp.minute as nat,
            ) + ":"@ + two_digits(self.timestamp.second as nat) + "] "@ + pad_left(
                level_name(self.level),
                7,
            ) + " "@ + self.message@,
    {
        let name = self.level.as_str();
        let mut padded = String::new();
        let len = name.unicode_len();
        let mut k: usize = len;
        while k < 7
            invariant
                len == name@.len(),
                len <= k <= 7 || (len > 7 && k == len),
                padded@.len() == k - len,
                forall|i: int| 0 <= i < padded@.len() ==> padded@[i] == ' ',
            decreases 7 - k,
        {
            proof {
                reveal_strlit(" ");
            }
            padded.append(" ");
            k = k + 1;
        }
        let padded = padded.concat(name);
        assert(padded@ =~= pad_left(level_name(self.level), 7));
        String::from_str("[").concat(two_digit_text(self.timestamp.hour).as_str()).concat(
            ":",
        ).concat(two_digit_text(self.timestamp.minute).as_str()).concat(":").concat(
            two_digit_text(self.timestamp.second).as_str(),
        ).concat("] ").concat(padded.as_str()).concat(" ").concat(self.message.as_str())
    }
}

} // verus!
