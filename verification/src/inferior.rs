//! The traced process and the operations that start, probe, resume, kill
//! and read it.
//!
//! A handle records the process identifier and the lifecycle phase that the
//! last event left the process in. The phase is `Stopped` from the first
//! trace trap on, and becomes `Exited` or `Terminated` with the event that
//! ends the process; from there it never changes again.

use vstd::prelude::*;
use crate::backtrace::{lemma_walked_consistent, walk_stack, Backtrace, UnwindError, MAX_DEPTH};
use crate::error::{ControlError, ProbeError, ReadError, SpawnError, WaitError};
use crate::os::{get_registers, peek_word, ptrace_cont, send_kill, wait_pid, Registers, WaitReport};
use crate::status::{Status, SIGTRAP};
use crate::symbols::{SourceLine, SymbolTable};

verus! {

/// Wait option bit: return at once if no child has changed state.
pub const WNOHANG: i32 = 1;

/// Wait option bit: also report children that have stopped.
pub const WSTOPPED: i32 = 2;

/// How a wait goes about it.
#[derive(Clone, Copy, Debug, PartialEq, Eq, Structural)]
pub enum WaitMode {
    /// Block until the process changes state.
    Any,
    /// Block until the process changes state, asking for stops as well.
    Stopped,
    /// Do not block: report a change only if one is there already.
    Poll,
}

impl WaitMode {
    /// The option bits that stand for the mode.
    pub open spec fn option_bits(self) -> i32 {
        match self {
            WaitMode::Any => 0,
            WaitMode::Stopped => WSTOPPED,
            WaitMode::Poll => WNOHANG,
        }
    }

    /// The option bits that stand for the mode.
    pub fn bits(&self) -> (bits: i32)
        ensures
            bits == self.option_bits(),
    {
        match self {
            WaitMode::Any => 0,
            WaitMode::Stopped => WSTOPPED,
            WaitMode::Poll => WNOHANG,
        }
    }
}

/// Lifecycle phase of a traced process that has been started.
#[derive(Clone, Copy, Debug, PartialEq, Eq, Structural)]
pub enum Phase {
    /// Parked at a trace stop; may be read, resumed and killed.
    Stopped,
    /// Exited normally.
    Exited,
    /// Killed by a signal.
    Terminated,
}

/// What a handle stands for: which process, in which phase.
#[derive(Clone, Copy, Debug, PartialEq, Eq, Structural)]
pub struct Traced {
    pub pid: i32,
    pub phase: Phase,
}

impl Traced {
    /// The process after the event `event` was seen on it. An event moves a
    /// stopped process only; a process that has ended stays as it is.
    pub open spec fn after(self, event: Status) -> Traced {
        if self.phase is Stopped {
            match event {
                Status::Stopped(_, _) => self,
                Status::Exited(_) => Traced { pid: self.pid, phase: Phase::Exited },
                Status::Signaled(_) => Traced { pid: self.pid, phase: Phase::Terminated },
                Status::NoChange => self,
            }
        } else {
            self
        }
    }
}

impl Status {
    /// The lifecycle event that a wait reply stands for. `pc` is the
    /// instruction pointer read after a stop was reported, if it could be
    /// read. "No change" is an event for a polling wait only; replies that
    /// are no stop, exit or signal death are unexpected.
    pub open spec fn event_of(mode: WaitMode, report: WaitReport, pc: Option<usize>) -> Result<
        Status,
        WaitError,
    > {
        match report {
            WaitReport::Exited(_, code) => Ok(Status::Exited(code)),
            WaitReport::Signaled(_, signal, _) => Ok(Status::Signaled(signal)),
            WaitReport::Stopped(_, signal) => match pc {
                Some(pc) => Ok(Status::Stopped(signal, pc)),
                None => Err(WaitError::Registers),
            },
            WaitReport::StillAlive => if mode is Poll {
                Ok(Status::NoChange)
            } else {
                Err(WaitError::UnexpectedWaitStatus)
            },
            _ => Err(WaitError::UnexpectedWaitStatus),
        }
    }

    /// Decodes a wait reply into a lifecycle event.
    pub fn from_wait(mode: WaitMode, report: WaitReport, pc: Option<usize>) -> (event: Result<
        Status,
        WaitError,
    >)
        ensures
            event == Status::event_of(mode, report, pc),
    {
        match report {
            WaitReport::Exited(_, code) => Ok(Status::Exited(code)),
            WaitReport::Signaled(_, signal, _) => Ok(Status::Signaled(signal)),
            WaitReport::Stopped(_, signal) => match pc {
                Some(pc) => Ok(Status::Stopped(signal, pc)),
                None => Err(WaitError::Registers),
            },
            WaitReport::StillAlive => match mode {
                WaitMode::Poll => Ok(Status::NoChange),
                _ => Err(WaitError::UnexpectedWaitStatus),
            },
            _ => Err(WaitError::UnexpectedWaitStatus),
        }
    }
}

/// A process that is being traced by the debugger.
#[derive(Debug)]
pub struct Inferior {
    pid: i32,
    phase: Phase,
}

impl View for Inferior {
    type V = Traced;

    closed spec fn view(&self) -> Traced {
        Traced { pid: self.pid, phase: self.phase }
    }
}

/// What accepting the child `pid` on its first event `first` comes to: the
/// child is taken under control exactly when the number is a process
/// identifier and the first event is a stop by the trace trap.
pub open spec fn acceptance(pid: i32, first: Result<Status, WaitError>) -> Result<
    Traced,
    SpawnError,
> {
    if pid <= 0 {
        Err(SpawnError::InvalidPid)
    } else {
        match first {
            Err(e) => Err(SpawnError::Wait(e)),
            Ok(Status::Stopped(signal, pc)) => if signal == SIGTRAP {
                Ok(Traced { pid, phase: Phase::Stopped })
            } else {
                Err(SpawnError::NotTrapped(Status::Stopped(signal, pc)))
            },
            Ok(event) => Err(SpawnError::NotTrapped(event)),
        }
    }
}

/// What taking control of the child `pid` may come to, whatever the system
/// replies: what accepting the child comes to on some first event.
pub open spec fn spawn_allows(pid: i32, outcome: Result<Traced, SpawnError>) -> bool {
    exists|first: Result<Status, WaitError>| #[trigger] acceptance(pid, first) == outcome
}

/// What a wait reply does to a handle and what the wait returns for it.
pub open spec fn absorbed(pre: Traced, mode: WaitMode, report: WaitReport, pc: Option<usize>) -> (
    Traced,
    Result<Status, ControlError>,
) {
    if pre.phase is Stopped {
        match Status::event_of(mode, report, pc) {
            Ok(event) => (pre.after(event), Ok(event)),
            Err(e) => (pre, Err(ControlError::Wait(e))),
        }
    } else {
        (pre, Err(ControlError::NotRunning))
    }
}

/// What a wait may do to a handle, whatever the system replies. A process
/// that has ended is not waited for. An event moves the handle into the
/// phase it stands for; a failed wait leaves the handle as it was.
pub open spec fn wait_allows(
    pre: Traced,
    mode: WaitMode,
    post: Traced,
    result: Result<Status, ControlError>,
) -> bool {
    match result {
        Ok(event) => {
            &&& pre.phase is Stopped
            &&& post == pre.after(event)
            &&& event is NoChange ==> mode is Poll
        },
        Err(ControlError::NotRunning) => pre.phase !is Stopped && post == pre,
        Err(ControlError::Wait(_)) => pre.phase is Stopped && post == pre,
        Err(_) => false,
    }
}

/// The answer of a liveness probe, given what its polling wait returned:
/// the process is alive unless the wait found or knew that it has ended.
pub open spec fn probe_answer(waited: Result<Status, ControlError>) -> Result<bool, ProbeError> {
    match waited {
        Ok(event) => Ok(!event.terminal()),
        Err(ControlError::Wait(e)) => Err(e),
        Err(ControlError::Probe(e)) => Err(e),
        Err(_) => Ok(false),
    }
}

/// What a liveness probe may do to a handle, whatever the system replies.
/// The answer is whether the handle is in the stopped phase afterwards. The
/// probe changes the handle only when it finds that a process recorded as
/// stopped has ended.
pub open spec fn probe_allows(pre: Traced, post: Traced, result: Result<bool, ProbeError>) -> bool {
    match result {
        Ok(alive) => {
            &&& alive == (post.phase is Stopped)
            &&& post.pid == pre.pid
            &&& alive || pre.phase !is Stopped ==> post == pre
        },
        Err(_) => pre.phase is Stopped && post == pre,
    }
}

/// What a resume may do to a handle, whatever the system replies.
pub open spec fn resume_allows(
    pre: Traced,
    post: Traced,
    result: Result<Status, ControlError>,
) -> bool {
    match result {
        Ok(event) => {
            &&& pre.phase is Stopped
            &&& event !is NoChange
            &&& post == pre.after(event)
        },
        Err(ControlError::NotRunning) => {
            &&& post.phase !is Stopped
            &&& post.pid == pre.pid
            &&& pre.phase !is Stopped ==> post == pre
        },
        Err(_) => pre.phase is Stopped && post == pre,
    }
}

/// What a kill may do to a handle, whatever the system replies: as a
/// resume, but the only events it reports are those that end the process.
pub open spec fn kill_allows(
    pre: Traced,
    post: Traced,
    result: Result<Status, ControlError>,
) -> bool {
    &&& resume_allows(pre, post, result)
    &&& result matches Ok(event) ==> event.terminal()
}

/// What reading the registers or the memory of a process may come to,
/// whatever the system replies: a process that is not stopped is not read.
pub open spec fn read_allows<T>(process: Traced, result: Result<T, ReadError>) -> bool {
    result matches Err(ReadError::NotStopped) <==> process.phase !is Stopped
}

/// The source position of the instruction that the registers point at.
pub open spec fn location(symbols: SymbolTable, registers: Result<Registers, ReadError>) -> Result<
    SourceLine,
    UnwindError,
> {
    match registers {
        Err(cause) => Err(UnwindError::Registers(cause)),
        Ok(registers) => match symbols.line_at(registers.rip) {
            Some(line) => Ok(line),
            None => Err(UnwindError::Lookup { address: registers.rip }),
        },
    }
}

/// What taking a backtrace may do to a handle and what it may report,
/// whatever the system replies. A process that has ended is not walked. A
/// walk leaves the handle as it was and reports a consistent trace of at
/// most `MAX_DEPTH` frames.
pub open spec fn backtrace_allows(
    pre: Traced,
    post: Traced,
    symbols: SymbolTable,
    result: Result<Backtrace, ControlError>,
) -> bool {
    match result {
        Ok(trace) => {
            &&& pre.phase is Stopped
            &&& post == pre
            &&& trace.consistent(symbols, MAX_DEPTH)
            &&& trace.end matches Err(UnwindError::Registers(cause)) ==> cause is Fault
        },
        Err(ControlError::NotRunning) => {
            &&& post.phase !is Stopped
            &&& post.pid == pre.pid
            &&& pre.phase !is Stopped ==> post == pre
        },
        Err(ControlError::Probe(_)) => pre.phase is Stopped && post == pre,
        Err(_) => false,
    }
}

impl Inferior {
    #[verifier::type_invariant]
    spec fn well_formed(self) -> bool {
        self.pid > 0
    }

    /// Takes the child `pid` under control, given the first event that a
    /// wait reported for it.
    pub fn accept(pid: i32, first: Result<Status, WaitError>) -> (accepted: Result<
        Inferior,
        SpawnError,
    >)
        ensures
            match accepted {
                Ok(inferior) => acceptance(pid, first) == Ok::<Traced, SpawnError>(inferior@),
                Err(e) => acceptance(pid, first) == Err::<Traced, SpawnError>(e),
            },
    {
        if pid <= 0 {
            return Err(SpawnError::InvalidPid);
        }
        match first {
            Err(e) => Err(SpawnError::Wait(e)),
            Ok(Status::Stopped(signal, pc)) => {
                if signal == SIGTRAP {
                    Ok(Inferior { pid, phase: Phase::Stopped })
                } else {
                    Err(SpawnError::NotTrapped(Status::Stopped(signal, pc)))
                }
            },
            Ok(event) => Err(SpawnError::NotTrapped(event)),
        }
    }

    /// Takes control of the child process `pid`, which was started so that
    /// it asks to be traced before it runs the target program.
    ///
    /// Blocks until the child's first event. Succeeds only if that event is
    /// the stop by the trace trap, which leaves the child parked before the
    /// first instruction of the target; the handle is then in the stopped
    /// phase. No system call is made for a number that is no process
    /// identifier.
    pub fn new(pid: i32) -> (spawned: Result<Inferior, SpawnError>)
        ensures
            match spawned {
                Ok(inferior) => spawn_allows(pid, Ok(inferior@)),
                Err(e) => spawn_allows(pid, Err(e)),
            },
    {
        if pid <= 0 {
            assert(acceptance(pid, Err(WaitError::Os)) == Err::<Traced, SpawnError>(
                SpawnError::InvalidPid,
            ));
            return Err(SpawnError::InvalidPid);
        }
        let first = match wait_pid(pid, WaitMode::Stopped.bits()) {
            Err(_) => Err(WaitError::Os),
            Ok(report) => {
                let pc = Inferior::stop_address(pid, &report);
                Status::from_wait(WaitMode::Stopped, report, pc)
            },
        };
        Inferior::accept(pid, first)
    }

    /// The instruction pointer of the process `pid` if `report` says that
    /// it stopped and its registers can be read.
    fn stop_address(pid: i32, report: &WaitReport) -> (pc: Option<usize>)
        requires
            pid > 0,
        ensures
            // The registers are read after a stop only: any other reply has
            // no instruction pointer to go with it, and the system is not
            // asked for one.
            *report !is Stopped ==> pc is None,
    {
        match report {
            WaitReport::Stopped(_, _) => match get_registers(pid) {
                Ok(registers) => Some(registers.rip),
                Err(_) => None,
            },
            _ => None,
        }
    }

    /// Returns the process identifier of this inferior.
    pub fn pid(&self) -> (pid: i32)
        ensures
            pid == self@.pid,
            pid > 0,
    {
        proof {
            use_type_invariant(self);
        }
        self.pid
    }

    /// Returns the lifecycle phase that the last event left the process in.
    pub fn phase(&self) -> (phase: Phase)
        ensures
            phase == self@.phase,
    {
        self.phase
    }

    /// Records a wait reply on the handle and returns the event it stands
    /// for. `pc` is the instruction pointer read after a stop was reported.
    pub fn absorb(&mut self, mode: WaitMode, report: WaitReport, pc: Option<usize>) -> (result:
        Result<Status, ControlError>)
        ensures
            (final(self)@, result) == absorbed(old(self)@, mode, report, pc),
    {
        proof {
            use_type_invariant(&*self);
        }
        match self.phase {
            Phase::Stopped => {},
            _ => {
                return Err(ControlError::NotRunning);
            },
        }
        match Status::from_wait(mode, report, pc) {
            Ok(event) => {
                match event {
                    Status::Exited(_) => {
                        self.phase = Phase::Exited;
                    },
                    Status::Signaled(_) => {
                        self.phase = Phase::Terminated;
                    },
                    _ => {},
                }
                Ok(event)
            },
            Err(e) => Err(ControlError::Wait(e)),
        }
    }

    /// Waits on this inferior and returns the event that the wait reported,
    /// recording it on the handle.
    ///
    /// A process that has ended is not waited for: the call returns
    /// `NotRunning` without asking the system. For a stop, the instruction
    /// pointer is read from the registers.
    pub fn wait(&mut self, mode: WaitMode) -> (result: Result<Status, ControlError>)
        ensures
            wait_allows(old(self)@, mode, final(self)@, result),
    {
        proof {
            use_type_invariant(&*self);
        }
        match self.phase {
            Phase::Stopped => {},
            _ => {
                return Err(ControlError::NotRunning);
            },
        }
        let report = match wait_pid(self.pid, mode.bits()) {
            Ok(report) => report,
            Err(_) => {
                return Err(ControlError::Wait(WaitError::Os));
            },
        };
        let pc = Inferior::stop_address(self.pid, &report);
        self.absorb(mode, report, pc)
    }

    /// Tells whether the process is still there, without blocking.
    ///
    /// Returns false exactly when the process has reached a phase that ends
    /// it: for a handle that records one, without asking the system; for a
    /// handle in the stopped phase, after a polling wait, whose event is
    /// recorded on the handle.
    pub fn running(&mut self) -> (alive: Result<bool, ProbeError>)
        ensures
            probe_allows(old(self)@, final(self)@, alive),
    {
        let waited = self.wait(WaitMode::Poll);
        Inferior::answer_probe(waited)
    }

    /// The answer of a liveness probe, given what its polling wait
    /// returned.
    pub fn answer_probe(waited: Result<Status, ControlError>) -> (alive: Result<bool, ProbeError>)
        ensures
            alive == probe_answer(waited),
    {
        match waited {
            Ok(event) => Ok(!event.is_terminal()),
            Err(ControlError::Wait(e)) => Err(e),
            Err(ControlError::Probe(e)) => Err(e),
            Err(_) => Ok(false),
        }
    }

    /// What a request on the process comes to once the liveness probe
    /// before it has answered: nothing yet if the process is alive, else
    /// the error that the request fails with.
    pub fn check_running(alive: Result<bool, ProbeError>) -> (checked: Result<(), ControlError>)
        ensures
            checked == match alive {
                Ok(true) => Ok::<(), ControlError>(()),
                Ok(false) => Err(ControlError::NotRunning),
                Err(e) => Err(ControlError::Probe(e)),
            },
    {
        match alive {
            Ok(true) => Ok(()),
            Ok(false) => Err(ControlError::NotRunning),
            Err(e) => Err(ControlError::Probe(e)),
        }
    }

    /// Lets the stopped process run and blocks until its next trace stop,
    /// exit or signal death, which it returns.
    ///
    /// Fails with `NotRunning`, and asks nothing of the system, if the
    /// handle records that the process has ended; fails the same way if the
    /// liveness probe finds that it has.
    pub fn continue_exec(&mut self) -> (result: Result<Status, ControlError>)
        ensures
            resume_allows(old(self)@, final(self)@, result),
    {
        proof {
            use_type_invariant(&*self);
        }
        let alive = self.running();
        match Inferior::check_running(alive) {
            Ok(_) => {},
            Err(e) => {
                return Err(e);
            },
        }
        match ptrace_cont(self.pid) {
            Ok(_) => {},
            Err(_) => {
                return Err(ControlError::Refused);
            },
        }
        self.wait(WaitMode::Any)
    }

    /// What a kill returns for the event that the wait after the signal
    /// reported: the event if it ends the process, else an error, since a
    /// killed process does not stop again.
    pub fn confirm_kill(waited: Result<Status, ControlError>) -> (result: Result<
        Status,
        ControlError,
    >)
        ensures
            result == match waited {
                Ok(event) => if event.terminal() {
                    Ok::<Status, ControlError>(event)
                } else {
                    Err(ControlError::Wait(WaitError::UnexpectedWaitStatus))
                },
                Err(e) => Err(e),
            },
    {
        match waited {
            Ok(event) => {
                if event.is_terminal() {
                    Ok(event)
                } else {
                    Err(ControlError::Wait(WaitError::UnexpectedWaitStatus))
                }
            },
            Err(e) => Err(e),
        }
    }

    /// Sends the kill signal to the process and blocks until the event that
    /// confirms its end, which it returns: always an exit or a signal
    /// death, never a stop.
    ///
    /// Fails with `NotRunning` under the same conditions as
    /// `continue_exec`.
    pub fn kill(&mut self) -> (result: Result<Status, ControlError>)
        ensures
            kill_allows(old(self)@, final(self)@, result),
            result matches Ok(event) ==> event is Exited || event is Signaled,
    {
        proof {
            use_type_invariant(&*self);
        }
        let alive = self.running();
        match Inferior::check_running(alive) {
            Ok(_) => {},
            Err(e) => {
                return Err(e);
            },
        }
        match send_kill(self.pid) {
            Ok(_) => {},
            Err(_) => {
                return Err(ControlError::Refused);
            },
        }
        let waited = self.wait(WaitMode::Any);
        Inferior::confirm_kill(waited)
    }

    /// Reads the instruction pointer and the frame-base pointer of the
    /// process. Only a stopped process has registers to read: for any other
    /// the call fails with `NotStopped` without asking the system.
    pub fn registers(&self) -> (result: Result<Registers, ReadError>)
        ensures
            read_allows(self@, result),
    {
        proof {
            use_type_invariant(self);
        }
        match self.phase {
            Phase::Stopped => {},
            _ => {
                return Err(ReadError::NotStopped);
            },
        }
        match get_registers(self.pid) {
            Ok(registers) => Ok(registers),
            Err(_) => Err(ReadError::Fault),
        }
    }

    /// Reads the machine word at `address` in the memory of the process,
    /// never in the debugger's own. Only a stopped process can be read: for
    /// any other the call fails with `NotStopped` without asking the system.
    pub fn read_word(&self, address: usize) -> (result: Result<usize, ReadError>)
        ensures
            read_allows(self@, result),
    {
        proof {
            use_type_invariant(self);
        }
        match self.phase {
            Phase::Stopped => {},
            _ => {
                return Err(ReadError::NotStopped);
            },
        }
        match peek_word(self.pid, address) {
            Ok(word) => Ok(word),
            Err(_) => Err(ReadError::Fault),
        }
    }

    /// Walks the call stack of the stopped process and returns its frames,
    /// innermost first, for the caller to print.
    ///
    /// Fails with `NotRunning` under the same conditions as
    /// `continue_exec`. Otherwise the walk starts at the registers of the
    /// process, reads its memory word by word and reports at most
    /// `MAX_DEPTH` frames; the trace holds the frames found and the reason
    /// the walk ended.
    pub fn print_backtrace(&mut self, debug_data: &SymbolTable) -> (result: Result<
        Backtrace,
        ControlError,
    >)
        ensures
            backtrace_allows(old(self)@, final(self)@, *debug_data, result),
    {
        let alive = self.running();
        match Inferior::check_running(alive) {
            Ok(_) => {},
            Err(e) => {
                return Err(e);
            },
        }
        let start = match self.registers() {
            Ok(registers) => registers,
            Err(cause) => {
                let end = Err(UnwindError::Registers(cause));
                return Ok(Backtrace { frames: Vec::new(), end });
            },
        };
        let process: &Inferior = &*self;
        let read = |address: usize| -> (word: Result<usize, ReadError>) {
            process.read_word(address)
        };
        let trace = walk_stack(start, read, debug_data, MAX_DEPTH);
        proof {
            lemma_walked_consistent(read, *debug_data, start, MAX_DEPTH, trace);
        }
        Ok(trace)
    }

    /// What `print_stopped_location` returns for the registers it read: the
    /// source position of the instruction pointer, if the registers could
    /// be read and the position is known.
    pub fn locate(debug_data: &SymbolTable, registers: Result<Registers, ReadError>) -> (result:
        Result<SourceLine, UnwindError>)
        ensures
            result == location(*debug_data, registers),
    {
        match registers {
            Err(cause) => Err(UnwindError::Registers(cause)),
            Ok(registers) => match debug_data.get_line_from_addr(registers.rip) {
                Ok(line) => Ok(line),
                Err(_) => Err(UnwindError::Lookup { address: registers.rip }),
            },
        }
    }

    /// Returns the source position at which the process is stopped, for the
    /// caller to print.
    pub fn print_stopped_location(&mut self, debug_data: &SymbolTable) -> (result: Result<
        SourceLine,
        UnwindError,
    >)
        ensures
            final(self)@ == old(self)@,
            exists|registers: Result<Registers, ReadError>|
                read_allows(old(self)@, registers) && result == #[trigger] location(
                    *debug_data,
                    registers,
                ),
    {
        let registers = self.registers();
        Inferior::locate(debug_data, registers)
    }
}

/// Taking control of a child yields the stopped phase and no other: a
/// handle is made only for a child whose first event is the stop by the
/// trace trap, and it names that child.
pub proof fn lemma_spawn_yields_stopped(pid: i32, outcome: Result<Traced, SpawnError>)
    requires
        spawn_allows(pid, outcome),
    ensures
        outcome matches Ok(process) ==> process.phase is Stopped && process.pid == pid && pid > 0,
        outcome matches Err(e) ==> e !is Launch && e !is Busy && (e is InvalidPid <==> pid <= 0),
        outcome matches Err(SpawnError::NotTrapped(event)) ==> !(event matches Status::Stopped(
            signal,
            _,
        ) && signal == SIGTRAP),
{
    let first = choose|first: Result<Status, WaitError>| #[trigger]
        acceptance(pid, first) == outcome;
    assert(acceptance(pid, first) == outcome);
}

/// A phase that ends the process is never left: no event moves a handle
/// out of it.
pub proof fn lemma_ended_stays_ended(process: Traced, event: Status)
    requires
        process.phase !is Stopped,
    ensures
        process.after(event) == process,
{
}

/// No operation is carried out on a process that has ended: a wait, a
/// resume, a kill and a backtrace fail with `NotRunning`, a probe answers
/// that the process is not alive, and each leaves the handle as it was.
pub proof fn lemma_ended_is_final(
    pre: Traced,
    post: Traced,
    mode: WaitMode,
    symbols: SymbolTable,
    waited: Result<Status, ControlError>,
    resumed: Result<Status, ControlError>,
    killed: Result<Status, ControlError>,
    alive: Result<bool, ProbeError>,
    trace: Result<Backtrace, ControlError>,
)
    requires
        pre.phase !is Stopped,
    ensures
        wait_allows(pre, mode, post, waited) ==> post == pre && waited == Err::<
            Status,
            ControlError,
        >(ControlError::NotRunning),
        resume_allows(pre, post, resumed) ==> post == pre && resumed == Err::<Status, ControlError>(
            ControlError::NotRunning,
        ),
        kill_allows(pre, post, killed) ==> post == pre && killed == Err::<Status, ControlError>(
            ControlError::NotRunning,
        ),
        probe_allows(pre, post, alive) ==> post == pre && alive == Ok::<bool, ProbeError>(false),
        backtrace_allows(pre, post, symbols, trace) ==> post == pre && trace matches Err(
            ControlError::NotRunning,
        ),
{
}

/// Whatever an operation does to a handle, the handle goes on naming the
/// same process, and a handle in the stopped phase afterwards was in the
/// stopped phase before.
pub proof fn lemma_handle_keeps_process(
    pre: Traced,
    post: Traced,
    mode: WaitMode,
    symbols: SymbolTable,
    waited: Result<Status, ControlError>,
    resumed: Result<Status, ControlError>,
    alive: Result<bool, ProbeError>,
    trace: Result<Backtrace, ControlError>,
)
    requires
        wait_allows(pre, mode, post, waited) || resume_allows(pre, post, resumed) || probe_allows(
            pre,
            post,
            alive,
        ) || backtrace_allows(pre, post, symbols, trace),
    ensures
        post.pid == pre.pid,
        post.phase is Stopped ==> pre.phase is Stopped,
{
}

/// A kill that reports an event reports an exit or a signal death, never a
/// stop, and leaves the handle in the phase that the event stands for.
pub proof fn lemma_kill_ends_process(
    pre: Traced,
    post: Traced,
    result: Result<Status, ControlError>,
)
    requires
        kill_allows(pre, post, result),
        result is Ok,
    ensures
        result->Ok_0 is Exited || result->Ok_0 is Signaled,
        post.phase !is Stopped,
        post.pid == pre.pid,
{
}

/// Probing a process over and over changes nothing, as long as the process
/// does not end between the probes: the handle stays as it was, and all
/// probes that answer give the same answer.
///
/// `states` are the handle before the first probe and after each probe,
/// `answers` what the probes returned.
pub proof fn lemma_probe_idempotent(states: Seq<Traced>, answers: Seq<Result<bool, ProbeError>>)
    requires
        states.len() == answers.len() + 1,
        forall|i: int|
            0 <= i < answers.len() ==> probe_allows(
                states[i],
                states[i + 1],
                #[trigger] answers[i],
            ),
        forall|i: int|
            0 <= i < answers.len() && #[trigger] answers[i] == Ok::<bool, ProbeError>(false)
                ==> states[i].phase !is Stopped,
    ensures
        forall|i: int| 0 <= i < states.len() ==> #[trigger] states[i] == states[0],
        forall|i: int, j: int|
            0 <= i < answers.len() && 0 <= j < answers.len() && (#[trigger] answers[i]) is Ok && (
            #[trigger] answers[j]) is Ok ==> answers[i] == answers[j],
    decreases answers.len(),
{
    if answers.len() > 0 {
        let n = answers.len() as int;
        lemma_probe_idempotent(states.drop_last(), answers.drop_last());
        assert(states.drop_last()[n - 1] == states[n - 1]);
        assert(states.drop_last()[0] == states[0]);
        assert(probe_allows(states[n - 1], states[n], answers[n - 1]));
        assert(states[n] == states[n - 1]);
        assert forall|i: int| 0 <= i < states.len() implies #[trigger] states[i] == states[0] by {
            if i < n {
                assert(states.drop_last()[i] == states[i]);
            }
        }
        assert forall|i: int|
            0 <= i < answers.len() && (#[trigger] answers[i]) is Ok implies answers[i] == Ok::<
            bool,
            ProbeError,
        >(states[0].phase is Stopped) by {
            assert(probe_allows(states[i], states[i + 1], answers[i]));
            assert(states[i + 1] == states[0]);
        }
    }
}

} // verus!
