use deet::error::{ControlError, ReadError, SpawnError, WaitError};
use deet::inferior::{Inferior, Phase, WaitMode, WNOHANG, WSTOPPED};
use deet::os::WaitReport;
use deet::status::{Status, SIGTRAP};

/// A process identifier that no child of the test process has.
const NO_CHILD: i32 = i32::MAX;

fn stopped_at_entry(pid: i32) -> Inferior {
    Inferior::accept(pid, Ok(Status::Stopped(SIGTRAP, 0x401000))).unwrap()
}

#[test]
fn numbers_agree_with_the_system() {
    assert_eq!(SIGTRAP, nix::sys::signal::Signal::SIGTRAP as i32);
    assert_eq!(WNOHANG, nix::sys::wait::WaitPidFlag::WNOHANG.bits());
    assert_eq!(WSTOPPED, nix::sys::wait::WaitPidFlag::WSTOPPED.bits());
}

#[test]
fn wait_modes_map_to_option_bits() {
    assert_eq!(WaitMode::Any.bits(), 0);
    assert_eq!(WaitMode::Stopped.bits(), WSTOPPED);
    assert_eq!(WaitMode::Poll.bits(), WNOHANG);
    assert_eq!(WSTOPPED, 2);
    assert_eq!(WNOHANG, 1);
}

#[test]
fn exit_reply_decodes_to_exited() {
    assert_eq!(
        Status::from_wait(WaitMode::Any, WaitReport::Exited(7, 3), None),
        Ok(Status::Exited(3))
    );
}

#[test]
fn signal_death_reply_decodes_to_signaled() {
    assert_eq!(
        Status::from_wait(WaitMode::Any, WaitReport::Signaled(7, 9, false), None),
        Ok(Status::Signaled(9))
    );
    assert_eq!(
        Status::from_wait(WaitMode::Any, WaitReport::Signaled(7, 11, true), None),
        Ok(Status::Signaled(11))
    );
}

#[test]
fn stop_reply_decodes_with_instruction_pointer() {
    assert_eq!(
        Status::from_wait(WaitMode::Stopped, WaitReport::Stopped(7, 5), Some(0x401000)),
        Ok(Status::Stopped(5, 0x401000))
    );
}

#[test]
fn stop_reply_without_registers_is_an_error() {
    assert_eq!(
        Status::from_wait(WaitMode::Any, WaitReport::Stopped(7, 5), None),
        Err(WaitError::Registers)
    );
}

#[test]
fn no_change_is_an_event_for_polling_only() {
    assert_eq!(
        Status::from_wait(WaitMode::Poll, WaitReport::StillAlive, None),
        Ok(Status::NoChange)
    );
    assert_eq!(
        Status::from_wait(WaitMode::Any, WaitReport::StillAlive, None),
        Err(WaitError::UnexpectedWaitStatus)
    );
    assert_eq!(
        Status::from_wait(WaitMode::Stopped, WaitReport::StillAlive, None),
        Err(WaitError::UnexpectedWaitStatus)
    );
}

#[test]
fn other_wait_replies_are_unexpected() {
    let replies = [
        WaitReport::PtraceEvent(7, 5, 1),
        WaitReport::PtraceSyscall(7),
        WaitReport::Continued(7),
    ];
    for reply in replies {
        for mode in [WaitMode::Any, WaitMode::Stopped, WaitMode::Poll] {
            assert_eq!(
                Status::from_wait(mode, reply, Some(1)),
                Err(WaitError::UnexpectedWaitStatus)
            );
        }
    }
}

#[test]
fn only_exit_and_signal_death_end_the_process() {
    assert!(Status::Exited(0).is_terminal());
    assert!(Status::Signaled(9).is_terminal());
    assert!(!Status::Stopped(5, 0).is_terminal());
    assert!(!Status::NoChange.is_terminal());
}

#[test]
fn spawn_yields_stopped_phase_on_trace_trap() {
    let inferior = Inferior::accept(4321, Ok(Status::Stopped(SIGTRAP, 0x401000))).unwrap();
    assert_eq!(inferior.pid(), 4321);
    assert_eq!(inferior.phase(), Phase::Stopped);
}

#[test]
fn spawn_fails_on_any_other_first_event() {
    let stopped_by_other = Status::Stopped(19, 0x401000);
    assert_eq!(
        Inferior::accept(4321, Ok(stopped_by_other)).unwrap_err(),
        SpawnError::NotTrapped(stopped_by_other)
    );
    assert_eq!(
        Inferior::accept(4321, Ok(Status::Exited(127))).unwrap_err(),
        SpawnError::NotTrapped(Status::Exited(127))
    );
    assert_eq!(
        Inferior::accept(4321, Ok(Status::Signaled(9))).unwrap_err(),
        SpawnError::NotTrapped(Status::Signaled(9))
    );
    assert_eq!(
        Inferior::accept(4321, Ok(Status::NoChange)).unwrap_err(),
        SpawnError::NotTrapped(Status::NoChange)
    );
    assert_eq!(
        Inferior::accept(4321, Err(WaitError::Os)).unwrap_err(),
        SpawnError::Wait(WaitError::Os)
    );
}

#[test]
fn spawn_rejects_numbers_that_are_no_process() {
    let trap = Ok(Status::Stopped(SIGTRAP, 0x401000));
    assert_eq!(Inferior::accept(0, trap).unwrap_err(), SpawnError::InvalidPid);
    assert_eq!(Inferior::accept(-1, trap).unwrap_err(), SpawnError::InvalidPid);
    assert_eq!(Inferior::new(0).unwrap_err(), SpawnError::InvalidPid);
    assert_eq!(Inferior::new(-7).unwrap_err(), SpawnError::InvalidPid);
}

#[test]
fn spawn_of_a_process_that_is_no_child_fails_in_the_wait() {
    assert_eq!(Inferior::new(NO_CHILD).unwrap_err(), SpawnError::Wait(WaitError::Os));
}

#[test]
fn exit_event_moves_handle_to_exited() {
    let mut inferior = stopped_at_entry(4321);
    let result = inferior.absorb(WaitMode::Any, WaitReport::Exited(4321, 0), None);
    assert_eq!(result, Ok(Status::Exited(0)));
    assert_eq!(inferior.phase(), Phase::Exited);
    assert_eq!(inferior.pid(), 4321);
}

#[test]
fn signal_death_moves_handle_to_terminated() {
    let mut inferior = stopped_at_entry(4321);
    let result = inferior.absorb(WaitMode::Any, WaitReport::Signaled(4321, 9, false), None);
    assert_eq!(result, Ok(Status::Signaled(9)));
    assert_eq!(inferior.phase(), Phase::Terminated);
}

#[test]
fn stop_event_keeps_handle_stopped() {
    let mut inferior = stopped_at_entry(4321);
    let result = inferior.absorb(WaitMode::Any, WaitReport::Stopped(4321, 11), Some(0x401234));
    assert_eq!(result, Ok(Status::Stopped(11, 0x401234)));
    assert_eq!(inferior.phase(), Phase::Stopped);
}

#[test]
fn failed_decode_leaves_handle_as_it_was() {
    let mut inferior = stopped_at_entry(4321);
    assert_eq!(
        inferior.absorb(WaitMode::Any, WaitReport::Continued(4321), None),
        Err(ControlError::Wait(WaitError::UnexpectedWaitStatus))
    );
    assert_eq!(inferior.phase(), Phase::Stopped);
    assert_eq!(
        inferior.absorb(WaitMode::Any, WaitReport::Stopped(4321, 5), None),
        Err(ControlError::Wait(WaitError::Registers))
    );
    assert_eq!(inferior.phase(), Phase::Stopped);
}

#[test]
fn ended_process_absorbs_nothing() {
    let mut inferior = stopped_at_entry(4321);
    inferior.absorb(WaitMode::Any, WaitReport::Exited(4321, 2), None).unwrap();
    let replies = [
        WaitReport::Stopped(4321, 5),
        WaitReport::Signaled(4321, 9, false),
        WaitReport::Exited(4321, 0),
        WaitReport::StillAlive,
    ];
    for reply in replies {
        assert_eq!(
            inferior.absorb(WaitMode::Poll, reply, Some(1)),
            Err(ControlError::NotRunning)
        );
        assert_eq!(inferior.phase(), Phase::Exited);
    }
}

fn ended(pid: i32) -> Inferior {
    let mut inferior = stopped_at_entry(pid);
    inferior.absorb(WaitMode::Any, WaitReport::Signaled(pid, 9, false), None).unwrap();
    inferior
}

#[test]
fn commands_on_an_ended_process_report_not_running() {
    let mut inferior = ended(NO_CHILD);
    assert_eq!(inferior.continue_exec(), Err(ControlError::NotRunning));
    assert_eq!(inferior.kill(), Err(ControlError::NotRunning));
    assert_eq!(inferior.wait(WaitMode::Any), Err(ControlError::NotRunning));
    assert_eq!(inferior.phase(), Phase::Terminated);
}

#[test]
fn ended_process_has_nothing_to_read() {
    let inferior = ended(NO_CHILD);
    assert_eq!(inferior.registers(), Err(ReadError::NotStopped));
    assert_eq!(inferior.read_word(0x1000), Err(ReadError::NotStopped));
}

#[test]
fn probing_an_ended_process_is_idempotent() {
    let mut inferior = ended(NO_CHILD);
    for _ in 0..5 {
        assert_eq!(inferior.running(), Ok(false));
        assert_eq!(inferior.phase(), Phase::Terminated);
        assert_eq!(inferior.pid(), NO_CHILD);
    }
}

#[test]
fn failed_probe_leaves_handle_as_it_was() {
    let mut inferior = stopped_at_entry(NO_CHILD);
    for _ in 0..3 {
        assert_eq!(inferior.running(), Err(WaitError::Os));
        assert_eq!(inferior.phase(), Phase::Stopped);
    }
}

#[test]
fn failed_probe_stops_resume_and_kill() {
    let mut inferior = stopped_at_entry(NO_CHILD);
    assert_eq!(inferior.continue_exec(), Err(ControlError::Probe(WaitError::Os)));
    assert_eq!(inferior.kill(), Err(ControlError::Probe(WaitError::Os)));
    assert_eq!(inferior.phase(), Phase::Stopped);
}

#[test]
fn wait_on_a_process_that_is_no_child_fails() {
    let mut inferior = stopped_at_entry(NO_CHILD);
    assert_eq!(inferior.wait(WaitMode::Poll), Err(ControlError::Wait(WaitError::Os)));
    assert_eq!(inferior.phase(), Phase::Stopped);
}

#[test]
fn reads_of_a_process_that_is_not_there_fail() {
    let inferior = stopped_at_entry(NO_CHILD);
    assert_eq!(inferior.registers(), Err(ReadError::Fault));
    assert_eq!(inferior.read_word(0x1000), Err(ReadError::Fault));
}

#[test]
fn probe_answers_from_what_the_poll_found() {
    let mut inferior = stopped_at_entry(4321);
    let unchanged = inferior.absorb(WaitMode::Poll, WaitReport::StillAlive, None);
    assert_eq!(unchanged, Ok(Status::NoChange));
    assert_eq!(Inferior::answer_probe(unchanged), Ok(true));
    assert_eq!(inferior.phase(), Phase::Stopped);
    let stopped = inferior.absorb(WaitMode::Poll, WaitReport::Stopped(4321, 19), Some(0x401000));
    assert_eq!(Inferior::answer_probe(stopped), Ok(true));
    let gone = inferior.absorb(WaitMode::Poll, WaitReport::Exited(4321, 0), None);
    assert_eq!(Inferior::answer_probe(gone), Ok(false));
    assert_eq!(inferior.phase(), Phase::Exited);
    let again = inferior.absorb(WaitMode::Poll, WaitReport::StillAlive, None);
    assert_eq!(again, Err(ControlError::NotRunning));
    assert_eq!(Inferior::answer_probe(again), Ok(false));
    assert_eq!(
        Inferior::answer_probe(Err(ControlError::Wait(WaitError::UnexpectedWaitStatus))),
        Err(WaitError::UnexpectedWaitStatus)
    );
}

#[test]
fn probe_answer_decides_the_request() {
    assert_eq!(Inferior::check_running(Ok(true)), Ok(()));
    assert_eq!(Inferior::check_running(Ok(false)), Err(ControlError::NotRunning));
    assert_eq!(
        Inferior::check_running(Err(WaitError::Os)),
        Err(ControlError::Probe(WaitError::Os))
    );
}

#[test]
fn terminate_never_yields_stopped() {
    assert_eq!(Inferior::confirm_kill(Ok(Status::Signaled(9))), Ok(Status::Signaled(9)));
    assert_eq!(Inferior::confirm_kill(Ok(Status::Exited(0))), Ok(Status::Exited(0)));
    assert_eq!(
        Inferior::confirm_kill(Ok(Status::Stopped(5, 0x401000))),
        Err(ControlError::Wait(WaitError::UnexpectedWaitStatus))
    );
    assert_eq!(
        Inferior::confirm_kill(Ok(Status::NoChange)),
        Err(ControlError::Wait(WaitError::UnexpectedWaitStatus))
    );
    assert_eq!(
        Inferior::confirm_kill(Err(ControlError::Wait(WaitError::Os))),
        Err(ControlError::Wait(WaitError::Os))
    );
}
