use deet::backtrace::{Backtrace, UnwindError};
use deet::command::{DebuggerCommand, Input, Retry};
use deet::debugger::{Debugger, Event, Next, Plan, Report, Turn};
use deet::error::{ControlError, SpawnError, WaitError};
use deet::inferior::{Inferior, Phase, WaitMode};
use deet::os::WaitReport;
use deet::status::{Status, SIGTRAP};
use deet::symbols::SymbolTable;

/// A process identifier that no child of the test process has.
const NO_CHILD: i32 = i32::MAX;

fn debugger() -> Debugger {
    Debugger::new("samples/sleepy_print", SymbolTable::new(Vec::new(), Vec::new()))
}

fn stopped_at_entry(pid: i32) -> Inferior {
    Inferior::accept(pid, Ok(Status::Stopped(SIGTRAP, 0x401000))).unwrap()
}

fn words(line: &[&str]) -> Vec<String> {
    line.iter().map(|w| w.to_string()).collect()
}

fn not_running() -> Turn {
    Turn { reports: vec![Report::NotRunning], next: Next::Prompt }
}

#[test]
fn new_debugger_has_no_process() {
    let debugger = debugger();
    assert_eq!(debugger.target(), "samples/sleepy_print");
    assert!(debugger.inferior().is_none());
    assert_eq!(*debugger.debug_data(), SymbolTable::new(Vec::new(), Vec::new()));
}

#[test]
fn continue_and_backtrace_without_process_report_not_running() {
    let mut debugger = debugger();
    let commands = [
        DebuggerCommand::Continue,
        DebuggerCommand::Backtrace,
        DebuggerCommand::Backtrace,
        DebuggerCommand::Continue,
        DebuggerCommand::Continue,
        DebuggerCommand::Backtrace,
    ];
    for command in commands {
        assert_eq!(debugger.plan(&command), Plan::NotRunning);
        assert_eq!(debugger.run(Event::Command(command)), not_running());
        assert!(debugger.inferior().is_none());
    }
}

#[test]
fn plan_depends_on_the_slot() {
    let mut debugger = debugger();
    let run = DebuggerCommand::Run(words(&["a"]));
    assert_eq!(debugger.plan(&run), Plan::Spawn);
    assert_eq!(debugger.plan(&DebuggerCommand::Quit), Plan::Exit);
    debugger.settle(stopped_at_entry(NO_CHILD));
    assert_eq!(debugger.plan(&run), Plan::TerminateThenSpawn);
    assert_eq!(debugger.plan(&DebuggerCommand::Continue), Plan::Resume);
    assert_eq!(debugger.plan(&DebuggerCommand::Backtrace), Plan::Backtrace);
    assert_eq!(debugger.plan(&DebuggerCommand::Quit), Plan::TerminateThenExit);
}

#[test]
fn run_without_process_asks_for_the_target_to_be_started() {
    let mut debugger = debugger();
    let turn = debugger.run(Event::Command(DebuggerCommand::Run(words(&["echo", "hi"]))));
    assert_eq!(turn, Turn { reports: Vec::new(), next: Next::Spawn(words(&["echo", "hi"])) });
    assert!(debugger.inferior().is_none());
}

#[test]
fn quit_without_process_leaves_at_once() {
    let mut debugger = debugger();
    let turn = debugger.run(Event::Command(DebuggerCommand::Quit));
    assert_eq!(turn, Turn { reports: Vec::new(), next: Next::Exit });
}

#[test]
fn run_of_a_target_that_exits_immediately() {
    let mut debugger = debugger();
    let turn = debugger.run(Event::Command(DebuggerCommand::Run(words(&["echo", "hi"]))));
    assert_eq!(turn.next, Next::Spawn(words(&["echo", "hi"])));

    // The child's first event is the stop at its entry.
    let reply = WaitReport::Stopped(4321, SIGTRAP);
    let first = Status::from_wait(WaitMode::Stopped, reply, Some(0x401000));
    assert_eq!(first, Ok(Status::Stopped(SIGTRAP, 0x401000)));
    let mut inferior = Inferior::accept(4321, first).unwrap();
    assert_eq!(inferior.phase(), Phase::Stopped);

    // It is resumed once and exits.
    let result = inferior.absorb(WaitMode::Any, WaitReport::Exited(4321, 0), None);
    assert_eq!(result, Ok(Status::Exited(0)));
    debugger.settle(inferior);
    let reports = Debugger::report_resume(result);
    assert_eq!(reports, vec![Report::Event(Status::Exited(0))]);
    assert_eq!(reports[0].lines(), vec!["process exited with status 0".to_string()]);
    assert!(debugger.inferior().is_none());
}

#[test]
fn stopped_process_stays_in_the_slot() {
    let mut debugger = debugger();
    let mut inferior = stopped_at_entry(4321);
    let result = inferior.absorb(WaitMode::Any, WaitReport::Stopped(4321, 11), Some(0x401234));
    debugger.settle(inferior);
    assert_eq!(Debugger::report_resume(result), vec![Report::Event(Status::Stopped(11, 0x401234))]);
    let kept = debugger.inferior().unwrap();
    assert_eq!(kept.pid(), 4321);
    assert_eq!(kept.phase(), Phase::Stopped);
}

#[test]
fn terminal_event_empties_the_slot() {
    for reply in [WaitReport::Exited(4321, 3), WaitReport::Signaled(4321, 9, false)] {
        let mut debugger = debugger();
        debugger.settle(stopped_at_entry(NO_CHILD));
        assert!(debugger.inferior().is_some());
        let mut inferior = stopped_at_entry(4321);
        let result = inferior.absorb(WaitMode::Any, reply, None);
        assert!(result.unwrap().is_terminal());
        debugger.settle(inferior);
        assert!(debugger.inferior().is_none());
        assert_eq!(debugger.run(Event::Command(DebuggerCommand::Continue)), not_running());
        assert_eq!(debugger.run(Event::Command(DebuggerCommand::Backtrace)), not_running());
    }
}

#[test]
fn quit_with_a_process_kills_once_and_leaves() {
    let mut debugger = debugger();
    debugger.settle(stopped_at_entry(NO_CHILD));
    assert_eq!(debugger.plan(&DebuggerCommand::Quit), Plan::TerminateThenExit);
    let turn = debugger.run(Event::Command(DebuggerCommand::Quit));
    assert_eq!(turn.next, Next::Exit);
    assert_eq!(turn.reports, vec![Report::Control(ControlError::Probe(WaitError::Os))]);
    assert!(debugger.inferior().is_none());
}

#[test]
fn run_with_a_process_kills_it_first() {
    let mut debugger = debugger();
    debugger.settle(stopped_at_entry(NO_CHILD));
    let turn = debugger.run(Event::Command(DebuggerCommand::Run(words(&["x"]))));
    assert_eq!(turn.next, Next::Spawn(words(&["x"])));
    assert_eq!(turn.reports, vec![Report::Control(ControlError::Probe(WaitError::Os))]);
    assert!(debugger.inferior().is_none());
}

#[test]
fn continue_on_a_process_that_cannot_be_probed_keeps_it() {
    let mut debugger = debugger();
    debugger.settle(stopped_at_entry(NO_CHILD));
    let turn = debugger.run(Event::Command(DebuggerCommand::Continue));
    assert_eq!(
        turn,
        Turn {
            reports: vec![Report::Control(ControlError::Probe(WaitError::Os))],
            next: Next::Prompt
        }
    );
    assert_eq!(debugger.inferior().unwrap().pid(), NO_CHILD);
    let turn = debugger.run(Event::Command(DebuggerCommand::Backtrace));
    assert_eq!(turn.reports, vec![Report::Control(ControlError::Probe(WaitError::Os))]);
    assert_eq!(debugger.inferior().unwrap().phase(), Phase::Stopped);
}

#[test]
fn spawn_failure_leaves_no_process() {
    let mut debugger = debugger();
    let turn = debugger.run(Event::SpawnFailed);
    assert_eq!(
        turn,
        Turn { reports: vec![Report::Spawn(SpawnError::Launch)], next: Next::Prompt }
    );
    assert!(debugger.inferior().is_none());
}

#[test]
fn spawned_child_that_cannot_be_waited_for_is_rejected() {
    let mut debugger = debugger();
    let turn = debugger.run(Event::Spawned(NO_CHILD));
    assert_eq!(
        turn,
        Turn { reports: vec![Report::Spawn(SpawnError::Wait(WaitError::Os))], next: Next::Prompt }
    );
    assert!(debugger.inferior().is_none());
    let turn = debugger.run(Event::Spawned(0));
    assert_eq!(turn.reports, vec![Report::Spawn(SpawnError::InvalidPid)]);
    assert!(debugger.inferior().is_none());
}

#[test]
fn spawned_child_is_refused_while_the_slot_is_taken() {
    let mut debugger = debugger();
    debugger.settle(stopped_at_entry(NO_CHILD));
    let turn = debugger.run(Event::Spawned(4321));
    assert_eq!(
        turn,
        Turn { reports: vec![Report::Spawn(SpawnError::Busy)], next: Next::Prompt }
    );
    assert_eq!(debugger.inferior().unwrap().pid(), NO_CHILD);
}

#[test]
fn resume_results_are_reported() {
    assert_eq!(Debugger::report_resume(Ok(Status::NoChange)), Vec::new());
    assert_eq!(
        Debugger::report_resume(Ok(Status::Signaled(11))),
        vec![Report::Event(Status::Signaled(11))]
    );
    assert_eq!(Debugger::report_resume(Err(ControlError::NotRunning)), vec![Report::NotRunning]);
    assert_eq!(
        Debugger::report_resume(Err(ControlError::Refused)),
        vec![Report::Control(ControlError::Refused)]
    );
}

#[test]
fn kill_notice_comes_only_when_the_signal_was_sent() {
    assert_eq!(
        Debugger::report_kill(77, Ok(Status::Signaled(9))),
        vec![Report::Killing(77), Report::Event(Status::Signaled(9))]
    );
    assert_eq!(
        Debugger::report_kill(77, Err(ControlError::Wait(WaitError::Os))),
        vec![Report::Killing(77), Report::Control(ControlError::Wait(WaitError::Os))]
    );
    assert_eq!(Debugger::report_kill(77, Err(ControlError::NotRunning)), vec![Report::NotRunning]);
    assert_eq!(
        Debugger::report_kill(77, Err(ControlError::Refused)),
        vec![Report::Control(ControlError::Refused)]
    );
    assert_eq!(
        Debugger::report_kill(77, Err(ControlError::Probe(WaitError::Os))),
        vec![Report::Control(ControlError::Probe(WaitError::Os))]
    );
}

#[test]
fn backtrace_results_are_reported() {
    let trace = || Backtrace { frames: Vec::new(), end: Err(UnwindError::DepthExceeded) };
    assert_eq!(Debugger::report_trace(Ok(trace())), vec![Report::Trace(trace())]);
    assert_eq!(Debugger::report_trace(Err(ControlError::NotRunning)), vec![Report::NotRunning]);
    assert_eq!(
        Debugger::report_trace(Err(ControlError::Probe(WaitError::Os))),
        vec![Report::Control(ControlError::Probe(WaitError::Os))]
    );
}

#[test]
fn first_word_names_the_command() {
    let parse = |line: &[&str]| DebuggerCommand::from_tokens(&words(line));
    assert_eq!(parse(&["q"]), Some(DebuggerCommand::Quit));
    assert_eq!(parse(&["quit"]), Some(DebuggerCommand::Quit));
    assert_eq!(parse(&["r"]), Some(DebuggerCommand::Run(Vec::new())));
    assert_eq!(parse(&["run", "a", "b c"]), Some(DebuggerCommand::Run(words(&["a", "b c"]))));
    assert_eq!(parse(&["c"]), Some(DebuggerCommand::Continue));
    assert_eq!(parse(&["cont"]), Some(DebuggerCommand::Continue));
    assert_eq!(parse(&["continue"]), Some(DebuggerCommand::Continue));
    assert_eq!(parse(&["bt"]), Some(DebuggerCommand::Backtrace));
    assert_eq!(parse(&["back"]), Some(DebuggerCommand::Backtrace));
    assert_eq!(parse(&["backtrace", "now"]), Some(DebuggerCommand::Backtrace));
}

#[test]
fn unknown_words_name_no_command() {
    let parse = |line: &[&str]| DebuggerCommand::from_tokens(&words(line));
    assert_eq!(parse(&[]), None);
    assert_eq!(parse(&["Quit"]), None);
    assert_eq!(parse(&["runn"]), None);
    assert_eq!(parse(&["", "run"]), None);
    assert_eq!(parse(&["break", "main"]), None);
}

#[test]
fn input_becomes_command_or_retry() {
    assert_eq!(Debugger::get_next_command(Input::Eof), Ok(DebuggerCommand::Quit));
    assert_eq!(Debugger::get_next_command(Input::Interrupted), Err(Retry::Interrupted));
    assert_eq!(Debugger::get_next_command(Input::Line(Vec::new())), Err(Retry::Empty));
    assert_eq!(
        Debugger::get_next_command(Input::Line(words(&["frobnicate"]))),
        Err(Retry::Unrecognized)
    );
    assert_eq!(
        Debugger::get_next_command(Input::Line(words(&["run", "1"]))),
        Ok(DebuggerCommand::Run(words(&["1"])))
    );
    assert_eq!(
        Debugger::get_next_command(Input::Line(words(&["bt"]))),
        Ok(DebuggerCommand::Backtrace)
    );
}
