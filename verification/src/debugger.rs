//! The command loop: what each command does to the single traced process
//! that the debugger owns, and what the operator is told about it.
//!
//! The loop itself runs in the program around the library, which reads the
//! input, starts the target and prints. Each round it hands an event to
//! `Debugger::run` and gets back a turn: the reports to print and what to
//! do next.

use vstd::prelude::*;
use crate::backtrace::Backtrace;
use crate::command::{reading_of, CommandView, DebuggerCommand, Input, Retry};
use crate::error::{ControlError, SpawnError};
use crate::inferior::{
    backtrace_allows, kill_allows, lemma_spawn_yields_stopped, resume_allows, spawn_allows,
    Inferior, Phase, Traced,
};
use crate::status::Status;
use crate::symbols::SymbolTable;

verus! {

/// What the program around the library reports to the debugger.
#[derive(Debug, PartialEq, Eq)]
pub enum Event {
    /// The operator gave a command.
    Command(DebuggerCommand),
    /// The target was started as a child that asks to be traced; holds the
    /// child's process identifier.
    Spawned(i32),
    /// The target could not be started.
    SpawnFailed,
}

/// What the program around the library does after a turn.
#[derive(Debug, PartialEq, Eq)]
pub enum Next {
    /// Ask the operator for the next command.
    Prompt,
    /// Start the target with these arguments and report how that went.
    Spawn(Vec<String>),
    /// Leave the command loop; no further command is processed.
    Exit,
}

/// One thing that the operator is told.
#[derive(Debug, PartialEq, Eq)]
pub enum Report {
    /// There is no running process to carry the command out on.
    NotRunning,
    /// The process with this identifier is being killed.
    Killing(i32),
    /// The traced process stopped, exited or was killed.
    Event(Status),
    /// The call stack of the traced process.
    Trace(Backtrace),
    /// The command failed on the running process.
    Control(ControlError),
    /// The target was not taken under control.
    Spawn(SpawnError),
}

/// The outcome of one round of the command loop.
#[derive(Debug, PartialEq, Eq)]
pub struct Turn {
    /// What to tell the operator, in this order.
    pub reports: Vec<Report>,
    /// What to do then.
    pub next: Next,
}

/// What a command calls for, given whether a process is active.
#[derive(Clone, Copy, Debug, PartialEq, Eq, Structural)]
pub enum Plan {
    /// Report that nothing is running. The system is not asked anything.
    NotRunning,
    /// Resume the active process.
    Resume,
    /// Walk the stack of the active process.
    Backtrace,
    /// Start the target.
    Spawn,
    /// Kill the active process, once, then start the target.
    TerminateThenSpawn,
    /// Leave.
    Exit,
    /// Kill the active process, once, then leave.
    TerminateThenExit,
}

/// The plan for `command` when a process is active (`active`) or not.
pub open spec fn plan_for(active: bool, command: CommandView) -> Plan {
    match command {
        CommandView::Run(_) => if active {
            Plan::TerminateThenSpawn
        } else {
            Plan::Spawn
        },
        CommandView::Continue => if active {
            Plan::Resume
        } else {
            Plan::NotRunning
        },
        CommandView::Backtrace => if active {
            Plan::Backtrace
        } else {
            Plan::NotRunning
        },
        CommandView::Quit => if active {
            Plan::TerminateThenExit
        } else {
            Plan::Exit
        },
    }
}

/// The state of a debugger: its target, its symbol table, and the slot for
/// the one process it may own.
pub struct Session {
    pub target: Seq<char>,
    pub symbols: SymbolTable,
    pub slot: Option<Traced>,
}

/// The slot after an operation left the handle of the active process as
/// `handle`: the handle stays only while the process is stopped, and is
/// dropped the moment the process has ended.
pub open spec fn kept(handle: Traced) -> Option<Traced> {
    if handle.phase is Stopped {
        Some(handle)
    } else {
        None
    }
}

/// What is reported for the result of a resume.
pub open spec fn resume_reports(result: Result<Status, ControlError>) -> Seq<Report> {
    match result {
        Ok(Status::NoChange) => seq![],
        Ok(event) => seq![Report::Event(event)],
        Err(ControlError::NotRunning) => seq![Report::NotRunning],
        Err(e) => seq![Report::Control(e)],
    }
}

/// What is reported for the result of a kill of the process `pid`: the
/// notice that it is being killed, if the signal was sent, and then the
/// result itself.
pub open spec fn kill_reports(pid: i32, result: Result<Status, ControlError>) -> Seq<Report> {
    match result {
        Ok(_) => seq![Report::Killing(pid)] + resume_reports(result),
        Err(ControlError::Wait(_)) => seq![Report::Killing(pid)] + resume_reports(result),
        Err(_) => resume_reports(result),
    }
}

/// What is reported for the result of a backtrace.
pub open spec fn trace_reports(result: Result<Backtrace, ControlError>) -> Seq<Report> {
    match result {
        Ok(trace) => seq![Report::Trace(trace)],
        Err(ControlError::NotRunning) => seq![Report::NotRunning],
        Err(e) => seq![Report::Control(e)],
    }
}

/// A round that resumed the process `handle`: the resume left the handle
/// as `mid` and returned `result`.
pub open spec fn resumed(
    handle: Traced,
    mid: Traced,
    result: Result<Status, ControlError>,
    post: Session,
    reports: Seq<Report>,
) -> bool {
    &&& resume_allows(handle, mid, result)
    &&& post.slot == kept(mid)
    &&& reports == resume_reports(result)
}

/// A round that killed the process `handle`: the kill left the handle as
/// `mid` and returned `result`. The slot is empty afterwards in any case.
pub open spec fn killed(
    handle: Traced,
    mid: Traced,
    result: Result<Status, ControlError>,
    post: Session,
    reports: Seq<Report>,
) -> bool {
    &&& kill_allows(handle, mid, result)
    &&& post.slot is None
    &&& reports == kill_reports(handle.pid, result)
}

/// A round that walked the stack of the process `handle`.
pub open spec fn traced(
    handle: Traced,
    mid: Traced,
    result: Result<Backtrace, ControlError>,
    post: Session,
    reports: Seq<Report>,
) -> bool {
    &&& backtrace_allows(handle, mid, post.symbols, result)
    &&& post.slot == kept(mid)
    &&& reports == trace_reports(result)
}

/// A round on which the child `pid` was not taken under control.
pub open spec fn rejected(pid: i32, e: SpawnError, post: Session, reports: Seq<Report>) -> bool {
    &&& spawn_allows(pid, Err(e))
    &&& post.slot is None
    &&& reports == seq![Report::Spawn(e)]
}

/// What one round of the command loop may do, whatever the system replies.
///
/// The target and the symbol table never change. A command is carried out
/// as its plan says. A child is taken under control and resumed once,
/// unless the slot is taken.
pub open spec fn turn_allows(pre: Session, event: Event, post: Session, turn: Turn) -> bool {
    &&& post.target == pre.target
    &&& post.symbols == pre.symbols
    &&& match event {
        Event::Command(command) => match plan_for(pre.slot is Some, command@) {
            Plan::NotRunning => {
                &&& post.slot == pre.slot
                &&& turn.reports@ == seq![Report::NotRunning]
                &&& turn.next is Prompt
            },
            Plan::Resume => {
                &&& turn.next is Prompt
                &&& exists|mid: Traced, result: Result<Status, ControlError>| #[trigger]
                    resumed(pre.slot->0, mid, result, post, turn.reports@)
            },
            Plan::Backtrace => {
                &&& turn.next is Prompt
                &&& exists|mid: Traced, result: Result<Backtrace, ControlError>| #[trigger]
                    traced(pre.slot->0, mid, result, post, turn.reports@)
            },
            Plan::Spawn => {
                &&& post.slot == pre.slot
                &&& turn.reports@ == Seq::<Report>::empty()
                &&& turn.next matches Next::Spawn(args)
                &&& command@ == CommandView::Run(args@)
            },
            Plan::TerminateThenSpawn => {
                &&& turn.next matches Next::Spawn(args)
                &&& command@ == CommandView::Run(args@)
                &&& exists|mid: Traced, result: Result<Status, ControlError>| #[trigger]
                    killed(pre.slot->0, mid, result, post, turn.reports@)
            },
            Plan::Exit => {
                &&& post.slot == pre.slot
                &&& turn.reports@ == Seq::<Report>::empty()
                &&& turn.next is Exit
            },
            Plan::TerminateThenExit => {
                &&& turn.next is Exit
                &&& exists|mid: Traced, result: Result<Status, ControlError>| #[trigger]
                    killed(pre.slot->0, mid, result, post, turn.reports@)
            },
        },
        Event::Spawned(pid) => {
            &&& turn.next is Prompt
            &&& if pre.slot is Some {
                &&& post.slot == pre.slot
                &&& turn.reports@ == seq![Report::Spawn(SpawnError::Busy)]
            } else {
                ||| exists|e: SpawnError| #[trigger] rejected(pid, e, post, turn.reports@)
                ||| {
                    let child = Traced { pid, phase: Phase::Stopped };
                    &&& spawn_allows(pid, Ok(child))
                    &&& exists|mid: Traced, result: Result<Status, ControlError>| #[trigger]
                        resumed(child, mid, result, post, turn.reports@)
                }
            }
        },
        Event::SpawnFailed => {
            &&& post.slot == pre.slot
            &&& turn.reports@ == seq![Report::Spawn(SpawnError::Launch)]
            &&& turn.next is Prompt
        },
    }
}

/// The debugger: the target, its debug information, and the traced process
/// if one is active.
pub struct Debugger {
    target: String,
    inferior: Option<Inferior>,
    debug_data: SymbolTable,
}

impl View for Debugger {
    type V = Session;

    closed spec fn view(&self) -> Session {
        Session {
            target: self.target@,
            symbols: self.debug_data,
            slot: match self.inferior {
                Some(inferior) => Some(inferior@),
                None => None,
            },
        }
    }
}

impl Debugger {
    /// Initializes the debugger for the program `target`, whose debug
    /// information is `debug_data`. No process is active.
    pub fn new(target: &str, debug_data: SymbolTable) -> (debugger: Debugger)
        ensures
            debugger@ == (Session { target: target@, symbols: debug_data, slot: None }),
    {
        Debugger { target: target.to_owned(), inferior: None, debug_data }
    }

    /// The program that the debugger runs.
    pub fn target(&self) -> (target: &String)
        ensures
            target@ == self@.target,
    {
        &self.target
    }

    /// The debug information of the target.
    pub fn debug_data(&self) -> (debug_data: &SymbolTable)
        ensures
            *debug_data == self@.symbols,
    {
        &self.debug_data
    }

    /// The active process, if there is one.
    pub fn inferior(&self) -> (inferior: Option<&Inferior>)
        ensures
            match inferior {
                Some(inferior) => self@.slot == Some(inferior@),
                None => self@.slot is None,
            },
    {
        self.inferior.as_ref()
    }

    /// Turns what came in at the prompt into the next command, or into the
    /// reason to prompt again: an interrupt, a line without words, or a
    /// line whose first word names no command. The end of the input is the
    /// command to quit.
    pub fn get_next_command(input: Input) -> (reading: Result<DebuggerCommand, Retry>)
        ensures
            match reading {
                Ok(command) => reading_of(input) == Ok::<CommandView, Retry>(command@),
                Err(retry) => reading_of(input) == Err::<CommandView, Retry>(retry),
            },
    {
        match input {
            Input::Interrupted => Err(Retry::Interrupted),
            Input::Eof => Ok(DebuggerCommand::Quit),
            Input::Line(tokens) => {
                if tokens.len() == 0 {
                    Err(Retry::Empty)
                } else {
                    match DebuggerCommand::from_tokens(&tokens) {
                        Some(command) => Ok(command),
                        None => Err(Retry::Unrecognized),
                    }
                }
            },
        }
    }

    /// What `command` calls for in the state the debugger is in.
    pub fn plan(&self, command: &DebuggerCommand) -> (plan: Plan)
        ensures
            plan == plan_for(self@.slot is Some, command@),
    {
        let active = self.inferior.is_some();
        match command {
            DebuggerCommand::Run(_) => if active {
                Plan::TerminateThenSpawn
            } else {
                Plan::Spawn
            },
            DebuggerCommand::Continue => if active {
                Plan::Resume
            } else {
                Plan::NotRunning
            },
            DebuggerCommand::Backtrace => if active {
                Plan::Backtrace
            } else {
                Plan::NotRunning
            },
            DebuggerCommand::Quit => if active {
                Plan::TerminateThenExit
            } else {
                Plan::Exit
            },
        }
    }

    /// The reports for the result of a resume.
    pub fn report_resume(result: Result<Status, ControlError>) -> (reports: Vec<Report>)
        ensures
            reports@ == resume_reports(result),
    {
        let mut reports: Vec<Report> = Vec::new();
        match result {
            Ok(Status::NoChange) => {},
            Ok(event) => {
                reports.push(Report::Event(event));
            },
            Err(ControlError::NotRunning) => {
                reports.push(Report::NotRunning);
            },
            Err(e) => {
                reports.push(Report::Control(e));
            },
        }
        reports
    }

    /// The reports for the result of a kill of the process `pid`.
    pub fn report_kill(pid: i32, result: Result<Status, ControlError>) -> (reports: Vec<Report>)
        ensures
            reports@ == kill_reports(pid, result),
    {
        let mut reports: Vec<Report> = Vec::new();
        match result {
            Ok(event) => {
                reports.push(Report::Killing(pid));
                match event {
                    Status::NoChange => {},
                    _ => {
                        reports.push(Report::Event(event));
                    },
                }
            },
            Err(ControlError::Wait(e)) => {
                reports.push(Report::Killing(pid));
                reports.push(Report::Control(ControlError::Wait(e)));
            },
            Err(ControlError::NotRunning) => {
                reports.push(Report::NotRunning);
            },
            Err(e) => {
                reports.push(Report::Control(e));
            },
        }
        reports
    }

    /// The reports for the result of a backtrace.
    pub fn report_trace(result: Result<Backtrace, ControlError>) -> (reports: Vec<Report>)
        ensures
            reports@ == trace_reports(result),
    {
        let mut reports: Vec<Report> = Vec::new();
        match result {
            Ok(trace) => {
                reports.push(Report::Trace(trace));
            },
            Err(ControlError::NotRunning) => {
                reports.push(Report::NotRunning);
            },
            Err(e) => {
                reports.push(Report::Control(e));
            },
        }
        reports
    }

    /// Puts the handle of the process back into the slot after an
    /// operation on it, or drops it: the handle is kept exactly while the
    /// process is stopped. Whatever the slot held before is dropped.
    pub fn settle(&mut self, inferior: Inferior)
        ensures
            final(self)@ == (Session { slot: kept(inferior@), ..old(self)@ }),
    {
        match inferior.phase() {
            Phase::Stopped => {
                self.inferior = Some(inferior);
            },
            _ => {
                self.inferior = None;
            },
        }
    }

    /// Runs one round of the command loop.
    ///
    /// A command is carried out on the active process: `Continue` resumes
    /// it, `Backtrace` walks its stack, and both report that nothing is
    /// running if there is none. `Run` kills the active process, if there
    /// is one, and asks for the target to be started; `Quit` kills it and
    /// asks to leave. When the target was started, the child is taken under
    /// control and resumed once. Every lifecycle event is reported, and an
    /// event that ends the process empties the slot.
    pub fn run(&mut self, event: Event) -> (turn: Turn)
        ensures
            turn_allows(old(self)@, event, final(self)@, turn),
    {
        let ghost pre = self@;
        match event {
            Event::Command(command) => {
                let plan = self.plan(&command);
                match plan {
                    Plan::NotRunning => {
                        let mut reports: Vec<Report> = Vec::new();
                        reports.push(Report::NotRunning);
                        Turn { reports, next: Next::Prompt }
                    },
                    Plan::Resume => {
                        let (reports, Ghost(seen)) = self.resume_active();
                        let turn = Turn { reports, next: Next::Prompt };
                        assert(resumed(pre.slot->0, seen.0, seen.1, self@, turn.reports@));
                        turn
                    },
                    Plan::Backtrace => {
                        let (reports, Ghost(seen)) = self.trace_active();
                        let turn = Turn { reports, next: Next::Prompt };
                        assert(traced(pre.slot->0, seen.0, seen.1, self@, turn.reports@));
                        turn
                    },
                    Plan::Spawn => match command {
                        DebuggerCommand::Run(args) => Turn {
                            reports: Vec::new(),
                            next: Next::Spawn(args),
                        },
                        _ => Turn { reports: Vec::new(), next: Next::Prompt },
                    },
                    Plan::TerminateThenSpawn => {
                        let (reports, Ghost(seen)) = self.kill_active();
                        let next = match command {
                            DebuggerCommand::Run(args) => Next::Spawn(args),
                            _ => Next::Prompt,
                        };
                        let turn = Turn { reports, next };
                        assert(killed(pre.slot->0, seen.0, seen.1, self@, turn.reports@));
                        turn
                    },
                    Plan::Exit => Turn { reports: Vec::new(), next: Next::Exit },
                    Plan::TerminateThenExit => {
                        let (reports, Ghost(seen)) = self.kill_active();
                        let turn = Turn { reports, next: Next::Exit };
                        assert(killed(pre.slot->0, seen.0, seen.1, self@, turn.reports@));
                        turn
                    },
                }
            },
            Event::Spawned(pid) => {
                let mut reports: Vec<Report> = Vec::new();
                if self.inferior.is_some() {
                    reports.push(Report::Spawn(SpawnError::Busy));
                    return Turn { reports, next: Next::Prompt };
                }
                match Inferior::new(pid) {
                    Err(e) => {
                        reports.push(Report::Spawn(e));
                        let turn = Turn { reports, next: Next::Prompt };
                        assert(rejected(pid, e, self@, turn.reports@));
                        turn
                    },
                    Ok(inferior) => {
                        let ghost handle = inferior@;
                        proof {
                            lemma_spawn_yields_stopped(pid, Ok(handle));
                        }
                        let mut inferior = inferior;
                        let result = inferior.continue_exec();
                        let ghost mid = inferior@;
                        self.settle(inferior);
                        let turn = Turn {
                            reports: Debugger::report_resume(result),
                            next: Next::Prompt,
                        };
                        assert(resumed(handle, mid, result, self@, turn.reports@));
                        turn
                    },
                }
            },
            Event::SpawnFailed => {
                let mut reports: Vec<Report> = Vec::new();
                reports.push(Report::Spawn(SpawnError::Launch));
                Turn { reports, next: Next::Prompt }
            },
        }
    }

    /// Resumes the active process and reports the result. Also hands back
    /// what the resume left of the handle and what it returned.
    fn resume_active(&mut self) -> (done: (
        Vec<Report>,
        Ghost<(Traced, Result<Status, ControlError>)>,
    ))
        requires
            old(self)@.slot is Some,
        ensures
            resumed(old(self)@.slot->0, done.1@.0, done.1@.1, final(self)@, done.0@),
            final(self)@.target == old(self)@.target,
            final(self)@.symbols == old(self)@.symbols,
    {
        let mut inferior = self.inferior.take().unwrap();
        let result = inferior.continue_exec();
        let ghost mid = inferior@;
        self.settle(inferior);
        (Debugger::report_resume(result), Ghost((mid, result)))
    }

    /// Kills the active process, empties the slot and reports the result.
    /// Also hands back what the kill left of the handle and what it
    /// returned.
    fn kill_active(&mut self) -> (done: (
        Vec<Report>,
        Ghost<(Traced, Result<Status, ControlError>)>,
    ))
        requires
            old(self)@.slot is Some,
        ensures
            killed(old(self)@.slot->0, done.1@.0, done.1@.1, final(self)@, done.0@),
            final(self)@.target == old(self)@.target,
            final(self)@.symbols == old(self)@.symbols,
    {
        let mut inferior = self.inferior.take().unwrap();
        let pid = inferior.pid();
        let result = inferior.kill();
        (Debugger::report_kill(pid, result), Ghost((inferior@, result)))
    }

    /// Walks the stack of the active process and reports the result. Also
    /// hands back what the walk left of the handle and what it returned.
    fn trace_active(&mut self) -> (done: (
        Vec<Report>,
        Ghost<(Traced, Result<Backtrace, ControlError>)>,
    ))
        requires
            old(self)@.slot is Some,
        ensures
            traced(old(self)@.slot->0, done.1@.0, done.1@.1, final(self)@, done.0@),
            final(self)@.target == old(self)@.target,
            final(self)@.symbols == old(self)@.symbols,
    {
        let mut inferior = self.inferior.take().unwrap();
        let result = inferior.print_backtrace(&self.debug_data);
        let ghost mid = inferior@;
        let ghost seen = result;
        self.settle(inferior);
        (Debugger::report_trace(result), Ghost((mid, seen)))
    }
}

/// Whether the event is a command that works on the active process only:
/// to resume it or to show its call stack.
pub open spec fn needs_process(event: Event) -> bool {
    event matches Event::Command(command) && (command is Continue || command is Backtrace)
}

/// Whether `turns` are what a debugger may answer to `events`, one round
/// after the other, passing through `states`: the state before the first
/// round and the state after each round.
pub open spec fn rounds_allowed(
    states: Seq<Session>,
    events: Seq<Event>,
    turns: Seq<Turn>,
) -> bool {
    &&& states.len() == events.len() + 1
    &&& turns.len() == events.len()
    &&& forall|i: int|
        0 <= i < events.len() ==> turn_allows(
            states[i],
            #[trigger] events[i],
            states[i + 1],
            turns[i],
        )
}

/// Without an active process, commands to resume or to show the call stack
/// report that nothing is running, however many come, and leave the
/// debugger as it was. Such a round carries out the plan `NotRunning`, which
/// asks nothing of the system.
pub proof fn lemma_idle_rounds(states: Seq<Session>, events: Seq<Event>, turns: Seq<Turn>)
    requires
        rounds_allowed(states, events, turns),
        states[0].slot is None,
        forall|i: int| 0 <= i < events.len() ==> needs_process(#[trigger] events[i]),
    ensures
        forall|i: int| 0 <= i < states.len() ==> #[trigger] states[i] == states[0],
        forall|i: int|
            0 <= i < turns.len() ==> (#[trigger] turns[i]).reports@ == seq![Report::NotRunning]
                && turns[i].next is Prompt,
        forall|i: int|
            0 <= i < events.len() ==> plan_for(
                states[i].slot is Some,
                (#[trigger] events[i])->Command_0@,
            ) is NotRunning,
    decreases events.len(),
{
    if events.len() > 0 {
        let n = events.len() as int;
        let before = states.drop_last();
        assert forall|i: int| 0 <= i < n - 1 implies turn_allows(
            before[i],
            #[trigger] events.drop_last()[i],
            before[i + 1],
            turns.drop_last()[i],
        ) by {
            assert(turn_allows(states[i], events[i], states[i + 1], turns[i]));
        }
        assert forall|i: int| 0 <= i < n - 1 implies needs_process(
            #[trigger] events.drop_last()[i],
        ) by {
            assert(needs_process(events[i]));
        }
        lemma_idle_rounds(before, events.drop_last(), turns.drop_last());
        assert(before[n - 1] == before[0]);
        assert(needs_process(events[n - 1]));
        assert(turn_allows(states[n - 1], events[n - 1], states[n], turns[n - 1]));
        assert(states[n] == states[0]);
        assert forall|i: int| 0 <= i < states.len() implies #[trigger] states[i] == states[0] by {
            if i < n {
                assert(before[i] == states[i]);
            }
        }
        assert forall|i: int| 0 <= i < turns.len() implies (#[trigger] turns[i]).reports@
            == seq![Report::NotRunning] && turns[i].next is Prompt by {
            if i < n - 1 {
                assert(turns.drop_last()[i] == turns[i]);
            }
        }
        assert forall|i: int| 0 <= i < events.len() implies plan_for(
            states[i].slot is Some,
            (#[trigger] events[i])->Command_0@,
        ) is NotRunning by {
            assert(needs_process(events[i]));
            assert(states[i] == states[0]);
        }
    }
}

/// After a round that reported an event which ends the process, an exit or
/// a signal death, the slot for the active process is empty; a command to
/// resume or to show the call stack that comes next reports that nothing is
/// running and leaves the debugger as it is.
pub proof fn lemma_terminal_event_empties_slot(
    pre: Session,
    event: Event,
    post: Session,
    turn: Turn,
    i: int,
    later: Event,
    last: Session,
    reply: Turn,
)
    requires
        turn_allows(pre, event, post, turn),
        0 <= i < turn.reports@.len(),
        turn.reports@[i] matches Report::Event(ended) && ended.terminal(),
        needs_process(later),
        turn_allows(post, later, last, reply),
    ensures
        post.slot is None,
        last == post,
        reply.reports@ == seq![Report::NotRunning],
        reply.next is Prompt,
{
    lemma_report_of_end_empties_slot(pre, event, post, turn, i);
}

/// After a round that reported an event which ends the process, the slot
/// for the active process is empty.
pub proof fn lemma_report_of_end_empties_slot(
    pre: Session,
    event: Event,
    post: Session,
    turn: Turn,
    i: int,
)
    requires
        turn_allows(pre, event, post, turn),
        0 <= i < turn.reports@.len(),
        turn.reports@[i] matches Report::Event(ended) && ended.terminal(),
    ensures
        post.slot is None,
{
    let reports = turn.reports@;
    match event {
        Event::Command(command) => match plan_for(pre.slot is Some, command@) {
            Plan::Resume => {
                let (mid, result) = choose|mid: Traced, result: Result<Status, ControlError>|
                    #[trigger] resumed(pre.slot->0, mid, result, post, reports);
                assert(resumed(pre.slot->0, mid, result, post, reports));
            },
            Plan::Backtrace => {
                let (mid, result) = choose|mid: Traced, result: Result<Backtrace, ControlError>|
                    #[trigger] traced(pre.slot->0, mid, result, post, reports);
                assert(traced(pre.slot->0, mid, result, post, reports));
            },
            _ => {},
        },
        Event::Spawned(pid) => {
            if pre.slot is None {
                if exists|e: SpawnError| #[trigger] rejected(pid, e, post, reports) {
                    let e = choose|e: SpawnError| #[trigger] rejected(pid, e, post, reports);
                    assert(rejected(pid, e, post, reports));
                } else {
                    let handle = Traced { pid, phase: Phase::Stopped };
                    let (mid, result) = choose|mid: Traced, result: Result<Status, ControlError>|
                        #[trigger] resumed(handle, mid, result, post, reports);
                    assert(resumed(handle, mid, result, post, reports));
                }
            }
        },
        Event::SpawnFailed => {},
    }
}

/// A round on the command to quit asks to leave the loop, whatever the
/// system replies, and leaves no process behind in the slot. With an active
/// process the round is that of one kill of that process; without one it
/// reports nothing.
pub proof fn lemma_quit_leaves(pre: Session, post: Session, turn: Turn)
    requires
        turn_allows(pre, Event::Command(DebuggerCommand::Quit), post, turn),
    ensures
        turn.next is Exit,
        post.slot is None,
        pre.slot is Some ==> exists|mid: Traced, result: Result<Status, ControlError>| #[trigger]
            killed(pre.slot->0, mid, result, post, turn.reports@),
        pre.slot is None ==> turn.reports@.len() == 0,
{
    if pre.slot is Some {
        let reports = turn.reports@;
        let (mid, result) = choose|mid: Traced, result: Result<Status, ControlError>| #[trigger]
            killed(pre.slot->0, mid, result, post, reports);
        assert(killed(pre.slot->0, mid, result, post, reports));
    }
}

/// The rule for what follows a lifecycle event of the active process: an
/// event that ends the process is reported and empties the slot; a stop is
/// reported and the process stays in the slot as it was.
pub proof fn lemma_event_decides_slot(
    handle: Traced,
    mid: Traced,
    event: Status,
    post: Session,
    reports: Seq<Report>,
)
    requires
        resumed(handle, mid, Ok(event), post, reports),
    ensures
        reports == seq![Report::Event(event)],
        event.terminal() ==> post.slot is None,
        event is Stopped ==> post.slot == Some(handle),
{
}

} // verus!
