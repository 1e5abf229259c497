//! The lines that the operator gets to read.
//!
//! Nothing here prints: each function returns the text of a line, and the
//! program around the library writes it out.

use vstd::prelude::*;
use vstd::string::*;
use crate::backtrace::{Backtrace, Frame};
use crate::command::Retry;
use crate::debugger::Report;
use crate::status::Status;
use crate::symbols::SourceLine;

verus! {

/// The character for the digit `d`.
pub open spec fn digit(d: nat) -> char {
    if d == 0 {
        '0'
    } else if d == 1 {
        '1'
    } else if d == 2 {
        '2'
    } else if d == 3 {
        '3'
    } else if d == 4 {
        '4'
    } else if d == 5 {
        '5'
    } else if d == 6 {
        '6'
    } else if d == 7 {
        '7'
    } else if d == 8 {
        '8'
    } else {
        '9'
    }
}

/// The decimal numeral of `n`, without leading zeros.
pub open spec fn decimal_text(n: nat) -> Seq<char>
    decreases n,
{
    if n < 10 {
        seq![digit(n)]
    } else {
        decimal_text(n / 10).push(digit(n % 10))
    }
}

/// The decimal numeral of `n`, with a minus sign if it is negative.
pub open spec fn signed_text(n: int) -> Seq<char> {
    if n < 0 {
        seq!['-'] + decimal_text((-n) as nat)
    } else {
        decimal_text(n as nat)
    }
}

/// The text of a digit.
fn digit_str(d: u64) -> (text: &'static str)
    requires
        d < 10,
    ensures
        text@ == seq![digit(d as nat)],
{
    proof {
        reveal_strlit("0");
        reveal_strlit("1");
        reveal_strlit("2");
        reveal_strlit("3");
        reveal_strlit("4");
        reveal_strlit("5");
        reveal_strlit("6");
        reveal_strlit("7");
        reveal_strlit("8");
        reveal_strlit("9");
    }
    let text = if d == 0 {
        "0"
    } else if d == 1 {
        "1"
    } else if d == 2 {
        "2"
    } else if d == 3 {
        "3"
    } else if d == 4 {
        "4"
    } else if d == 5 {
        "5"
    } else if d == 6 {
        "6"
    } else if d == 7 {
        "7"
    } else if d == 8 {
        "8"
    } else {
        "9"
    };
    assert(text@ =~= seq![digit(d as nat)]);
    text
}

/// Writes `n` as a decimal numeral.
pub fn decimal(n: u64) -> (text: String)
    ensures
        text@ == decimal_text(n as nat),
    decreases n,
{
    if n < 10 {
        String::from_str(digit_str(n))
    } else {
        let mut text = decimal(n / 10);
        text.append(digit_str(n % 10));
        assert(text@ =~= decimal_text((n / 10) as nat).push(digit((n % 10) as nat)));
        text
    }
}

/// Writes `n` as a decimal numeral, with a minus sign if it is negative.
pub fn signed_decimal(n: i32) -> (text: String)
    ensures
        text@ == signed_text(n as int),
{
    if n < 0 {
        let mut text = String::from_str("-");
        proof {
            reveal_strlit("-");
        }
        let size: u64 = (-(n as i64)) as u64;
        let digits = decimal(size);
        text.append(digits.as_str());
        assert(text@ =~= seq!['-'] + decimal_text((-n) as nat));
        text
    } else {
        decimal(n as u64)
    }
}

/// The line for a lifecycle event. "No change" has none.
pub open spec fn status_line(event: Status) -> Option<Seq<char>> {
    match event {
        Status::Exited(code) => Some("process exited with status "@ + signed_text(code as int)),
        Status::Signaled(signal) => Some(
            "process terminated by signal "@ + signed_text(signal as int),
        ),
        Status::Stopped(signal, _) => Some(
            "process stopped by signal "@ + signed_text(signal as int),
        ),
        Status::NoChange => None,
    }
}

/// The line for a frame of a backtrace: the function, then file and line in
/// brackets.
pub open spec fn frame_line(frame: Frame) -> Seq<char> {
    frame.function@ + " ("@ + frame.file@ + ":"@ + decimal_text(frame.line as nat) + ")"@
}

/// The line that tells where the process is stopped.
pub open spec fn location_line(line: SourceLine) -> Seq<char> {
    "Stopped at "@ + line.file@ + ":"@ + decimal_text(line.number as nat)
}

/// The notice that the process `pid` is being killed.
pub open spec fn killing_line(pid: i32) -> Seq<char> {
    "killing running process (pid "@ + signed_text(pid as int) + ")"@
}

/// The lines for a backtrace: one for each frame, innermost first, and a
/// last one if the walk failed.
pub open spec fn trace_lines(trace: Backtrace) -> Seq<Seq<char>> {
    let lines = Seq::new(trace.frames@.len(), |i: int| frame_line(trace.frames@[i]));
    if trace.end is Err {
        lines.push("error running process"@)
    } else {
        lines
    }
}

/// The lines for a report.
pub open spec fn report_lines(report: Report) -> Seq<Seq<char>> {
    match report {
        Report::NotRunning => seq!["no running process"@],
        Report::Killing(pid) => seq![killing_line(pid)],
        Report::Event(event) => match status_line(event) {
            Some(line) => seq![line],
            None => seq![],
        },
        Report::Trace(trace) => trace_lines(trace),
        Report::Control(_) => seq!["error running process"@],
        Report::Spawn(_) => seq!["error running process"@],
    }
}

/// The line that is shown before the prompt comes again, if any.
pub open spec fn retry_line(retry: Retry) -> Option<Seq<char>> {
    match retry {
        Retry::Empty => None,
        Retry::Interrupted => Some("Type \"quit\" to exit"@),
        Retry::Unrecognized => Some("Unrecognized command."@),
    }
}

/// Whether the strings `lines` hold the texts `texts`, line for line.
pub open spec fn holds_lines(lines: Seq<String>, texts: Seq<Seq<char>>) -> bool {
    &&& lines.len() == texts.len()
    &&& forall|i: int| 0 <= i < lines.len() ==> (#[trigger] lines[i])@ == texts[i]
}

impl Status {
    /// The line that reports the event to the operator.
    pub fn line(&self) -> (line: Option<String>)
        ensures
            match line {
                Some(line) => status_line(*self) == Some(line@),
                None => status_line(*self) is None,
            },
    {
        match self {
            Status::Exited(code) => {
                let mut line = String::from_str("process exited with status ");
                line.append(signed_decimal(*code).as_str());
                Some(line)
            },
            Status::Signaled(signal) => {
                let mut line = String::from_str("process terminated by signal ");
                line.append(signed_decimal(*signal).as_str());
                Some(line)
            },
            Status::Stopped(signal, _) => {
                let mut line = String::from_str("process stopped by signal ");
                line.append(signed_decimal(*signal).as_str());
                Some(line)
            },
            Status::NoChange => None,
        }
    }
}

impl Frame {
    /// The line that shows the frame in a backtrace.
    pub fn line(&self) -> (line: String)
        ensures
            line@ == frame_line(*self),
    {
        let mut line = self.function.clone();
        line.append(" (");
        line.append(self.file.as_str());
        line.append(":");
        line.append(decimal(self.line as u64).as_str());
        line.append(")");
        line
    }
}

impl SourceLine {
    /// The line that tells where the process is stopped.
    pub fn line(&self) -> (line: String)
        ensures
            line@ == location_line(*self),
    {
        let mut line = String::from_str("Stopped at ");
        line.append(self.file.as_str());
        line.append(":");
        line.append(decimal(self.number as u64).as_str());
        line
    }
}

impl Backtrace {
    /// The lines that show the backtrace.
    pub fn lines(&self) -> (lines: Vec<String>)
        ensures
            holds_lines(lines@, trace_lines(*self)),
    {
        let mut lines: Vec<String> = Vec::new();
        let mut i: usize = 0;
        while i < self.frames.len()
            invariant
                i <= self.frames.len(),
                lines.len() == i,
                forall|j: int|
                    0 <= j < i ==> (#[trigger] lines@[j])@ == frame_line(self.frames@[j]),
            decreases self.frames.len() - i,
        {
            lines.push(self.frames[i].line());
            i += 1;
        }
        match self.end {
            Ok(_) => {},
            Err(_) => {
                lines.push(String::from_str("error running process"));
            },
        }
        lines
    }
}

impl Report {
    /// The lines that tell the operator what the report says.
    pub fn lines(&self) -> (lines: Vec<String>)
        ensures
            holds_lines(lines@, report_lines(*self)),
    {
        let mut lines: Vec<String> = Vec::new();
        match self {
            Report::NotRunning => {
                lines.push(String::from_str("no running process"));
            },
            Report::Killing(pid) => {
                let mut line = String::from_str("killing running process (pid ");
                line.append(signed_decimal(*pid).as_str());
                line.append(")");
                lines.push(line);
            },
            Report::Event(event) => {
                match event.line() {
                    Some(line) => {
                        lines.push(line);
                    },
                    None => {},
                }
            },
            Report::Trace(trace) => {
                return trace.lines();
            },
            Report::Control(_) => {
                lines.push(String::from_str("error running process"));
            },
            Report::Spawn(_) => {
                lines.push(String::from_str("error running process"));
            },
        }
        lines
    }
}

impl Retry {
    /// The line that is shown before the prompt comes again, if any.
    pub fn line(&self) -> (line: Option<String>)
        ensures
            match line {
                Some(line) => retry_line(*self) == Some(line@),
                None => retry_line(*self) is None,
            },
    {
        match self {
            Retry::Empty => None,
            Retry::Interrupted => Some(String::from_str("Type \"quit\" to exit")),
            Retry::Unrecognized => Some(String::from_str("Unrecognized command.")),
        }
    }
}

} // verus!
