use vstd::prelude::*;
use vstd::string::StringExecFns;
use crate::event::{
    error_event, is_terminal, output_event, passthrough_marker, tagged_event, AppMessage, Event,
    LogLevel,
};

verus! {

/// The decimal digit for `d`.
pub open spec fn digit_char(d: nat) -> char {
    "0123456789"@[d as int]
}

/// The decimal form of a natural number, without leading zeros.
pub open spec fn decimal_nat(n: nat) -> Seq<char>
    decreases n,
{
    if n < 10 {
        seq![digit_char(n)]
    } else {
        decimal_nat(n / 10) + seq![digit_char(n % 10)]
    }
}

/// The decimal form of an integer, with a minus sign when negative.
pub open spec fn decimal(i: int) -> Seq<char> {
    if i < 0 {
        "-"@ + decimal_nat((-i) as nat)
    } else {
        decimal_nat(i as nat)
    }
}

spec fn digits_above(n: nat) -> Seq<char> {
    if n == 0 {
        Seq::empty()
    } else {
        decimal_nat(n)
    }
}

fn digit_str(d: u32) -> (r: &'static str)
    requires
        d < 10,
    ensures
        r@ == seq![digit_char(d as nat)],
{
    proof {
        reveal_strlit("0123456789");
    }
    let digits = "0123456789";
    let r = digits.substring_char(d as usize, d as usize + 1);
    assert(r@ =~= seq![digit_char(d as nat)]);
    r
}

/// The decimal form of `v`, as `u64::to_string` writes it.
pub fn format_u64(v: u64) -> (r: String)
    ensures
        r@ == decimal_nat(v as nat),
{
    let mut n: u64 = v / 10;
    let mut s = String::from_str(digit_str((v % 10) as u32));
    assert(decimal_nat(v as nat) == digits_above(n as nat) + s@);
    while n > 0
        invariant
            decimal_nat(v as nat) == digits_above(n as nat) + s@,
        decreases n,
    {
        let d = digit_str((n % 10) as u32);
        let ghost old_s = s@;
        s = String::from_str(d).concat(s.as_str());
        assert(digits_above(n as nat) == digits_above((n / 10) as nat) + seq![
            digit_char((n % 10) as nat),
        ]);
        assert(digits_above(n as nat) + old_s =~= digits_above((n / 10) as nat) + s@);
        n = n / 10;
    }
    assert(s@ =~= decimal_nat(v as nat));
    s
}

/// The decimal form of `v`, as `i32::to_string` writes it.
pub fn format_i32(v: i32) -> (r: String)
    ensures
        r@ == decimal(v as int),
{
    if v < 0 {
        let s = format_u64((-(v as i64)) as u64);
        String::from_str("-").concat(s.as_str())
    } else {
        format_u64(v as u64)
    }
}

/// The reason given when the worker ends with `code`.
pub open spec fn exit_reason(code: Option<i32>) -> Seq<char> {
    match code {
        Some(c) => "worker exited with code "@ + decimal(c as int),
        None => "worker was stopped by a signal"@,
    }
}

/// The terminal event for a worker that ended with `code`; `None` stands for
/// an end by signal.
pub open spec fn exit_event(code: Option<i32>) -> Event {
    if code == Some(0i32) {
        Event::Completed
    } else {
        Event::Failed(exit_reason(code))
    }
}

/// The terminal message for a worker that ended with `code`.
pub fn exit_message(code: Option<i32>) -> (r: AppMessage)
    ensures
        r@ == exit_event(code),
{
    match code {
        Some(0) => AppMessage::AutomationComplete,
        Some(c) => AppMessage::AutomationFailed(
            String::from_str("worker exited with code ").concat(format_i32(c).as_str()),
        ),
        None => AppMessage::AutomationFailed(String::from_str("worker was stopped by a signal")),
    }
}

/// The failure reported when the worker cannot be started.
pub fn launch_failure(cause: &str) -> (r: AppMessage)
    ensures
        r@ == Event::Failed("failed to launch worker: "@ + cause@),
{
    AppMessage::AutomationFailed(String::from_str("failed to launch worker: ").concat(cause))
}

/// The failure reported when the task input cannot be written to the worker.
pub fn input_failure() -> (r: AppMessage)
    ensures
        r@ == Event::Failed("failed to send task input"@),
{
    AppMessage::AutomationFailed(String::from_str("failed to send task input"))
}

/// The failure reported when a task body stops without a result of its own.
pub fn internal_failure() -> (r: AppMessage)
    ensures
        r@ == Event::Failed("internal task error"@),
{
    AppMessage::AutomationFailed(String::from_str("internal task error"))
}

/// One line a worker wrote: `true` for its diagnostic stream.
pub open spec fn line_event(line: (bool, Seq<char>)) -> Event {
    if line.0 {
        error_event(line.1)
    } else {
        output_event(line.1)
    }
}

/// What a worker run yields: the event of each line, in the order they were
/// read, and then the event for its exit.
pub open spec fn run_events(lines: Seq<(bool, Seq<char>)>, code: Option<i32>) -> Seq<Event> {
    lines.map_values(|l: (bool, Seq<char>)| line_event(l)).push(exit_event(code))
}

/// How many events of `s` end a run.
pub open spec fn count_terminal(s: Seq<Event>) -> nat
    decreases s.len(),
{
    if s.len() == 0 {
        0
    } else {
        count_terminal(s.drop_last()) + if is_terminal(s.last()) {
            1nat
        } else {
            0nat
        }
    }
}

/// No line of worker output ends a run: decoding yields logs and progress only.
pub proof fn lemma_line_not_terminal(line: (bool, Seq<char>))
    ensures
        !is_terminal(line_event(line)),
{
}

proof fn lemma_lines_not_terminal(lines: Seq<(bool, Seq<char>)>)
    ensures
        count_terminal(lines.map_values(|l: (bool, Seq<char>)| line_event(l))) == 0,
    decreases lines.len(),
{
    let evs = lines.map_values(|l: (bool, Seq<char>)| line_event(l));
    if lines.len() > 0 {
        let init = lines.drop_last();
        lemma_lines_not_terminal(init);
        assert(evs.drop_last() =~= init.map_values(|l: (bool, Seq<char>)| line_event(l)));
        lemma_line_not_terminal(lines.last());
    }
}

/// Whatever a worker writes, its run yields exactly one terminal event, the
/// last one: `Completed` when it exits with 0, and otherwise `Failed` with a
/// reason that carries the exit code.
pub proof fn lemma_run_has_one_terminal(lines: Seq<(bool, Seq<char>)>, code: Option<i32>)
    ensures
        count_terminal(run_events(lines, code)) == 1,
        code == Some(0i32) ==> run_events(lines, code).last() is Completed,
        code != Some(0i32) ==> run_events(lines, code).last() == Event::Failed(exit_reason(code)),
        forall|c: i32|
            c != 0 && code == Some(c) ==> exit_reason(code) == "worker exited with code "@
                + decimal(c as int),
{
    let evs = run_events(lines, code);
    lemma_lines_not_terminal(lines);
    assert(evs.drop_last() =~= lines.map_values(|l: (bool, Seq<char>)| line_event(l)));
}

/// A line with no recognised tag is passed through as an `Info` log that
/// keeps the whole line.
pub proof fn lemma_untagged_passthrough(line: Seq<char>)
    requires
        tagged_event(line) is None,
    ensures
        output_event(line) == Event::Log(LogLevel::Info, passthrough_marker() + line),
{
}

} // verus!
