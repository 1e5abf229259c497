//! The calls into the operating system's process-tracing facility.
//!
//! Nothing in this file is proved. Each function makes one call of the `nix`
//! crate and hands its reply on as plain values. None of them promises
//! anything about the reply: what the traced process does is not ours to
//! state, so every caller is verified for whatever comes back.

use vstd::prelude::*;
use nix::sys::ptrace;
use nix::sys::signal::{kill, Signal};
use nix::sys::wait::{waitpid, WaitPidFlag, WaitStatus};
use nix::unistd::Pid;

verus! {

/// The error type of the `nix` crate. Opaque here: a failed call is mapped
/// to one of the library's own errors by the caller.
#[verifier::external_type_specification]
#[verifier::external_body]
pub struct ExNixError(nix::Error);

/// Reply of a wait, variant for variant what `nix::sys::wait::WaitStatus`
/// holds, with process identifiers and signals as their numbers.
#[derive(Clone, Copy, Debug, PartialEq, Eq, Structural)]
pub enum WaitReport {
    /// Exited normally: process, exit code.
    Exited(i32, i32),
    /// Killed by a signal: process, signal, whether it dumped core.
    Signaled(i32, i32, bool),
    /// Stopped by a signal: process, signal.
    Stopped(i32, i32),
    /// Stopped by a trace event: process, signal, event.
    PtraceEvent(i32, i32, i32),
    /// Stopped at a system call: process.
    PtraceSyscall(i32),
    /// Resumed by a continue signal: process.
    Continued(i32),
    /// No state change to report.
    StillAlive,
}

/// The two registers the library reads from a stopped process.
#[derive(Clone, Copy, Debug, PartialEq, Eq, Structural)]
pub struct Registers {
    /// Instruction pointer.
    pub rip: usize,
    /// Frame-base pointer.
    pub rbp: usize,
}

/// Calls `nix::sys::wait::waitpid` on the process `pid` with the option
/// bits `options` (bits that are no wait option are dropped) and hands back
/// its reply. Blocks until the process changes state unless the bits ask
/// otherwise. Claims nothing about the reply.
#[verifier::external_body]
pub(crate) fn wait_pid(pid: i32, options: i32) -> (reply: Result<WaitReport, nix::Error>)
    requires
        pid > 0,
{
    let flags = WaitPidFlag::from_bits_truncate(options);
    Ok(match waitpid(Pid::from_raw(pid), Some(flags))? {
        WaitStatus::Exited(p, code) => WaitReport::Exited(p.as_raw(), code),
        WaitStatus::Signaled(p, s, core) => WaitReport::Signaled(p.as_raw(), s as i32, core),
        WaitStatus::Stopped(p, s) => WaitReport::Stopped(p.as_raw(), s as i32),
        WaitStatus::PtraceEvent(p, s, e) => WaitReport::PtraceEvent(p.as_raw(), s as i32, e),
        WaitStatus::PtraceSyscall(p) => WaitReport::PtraceSyscall(p.as_raw()),
        WaitStatus::Continued(p) => WaitReport::Continued(p.as_raw()),
        WaitStatus::StillAlive => WaitReport::StillAlive,
    })
}

/// Calls `nix::sys::ptrace::cont` on the process `pid`, delivering no
/// signal: asks the system to let the stopped process run. Claims nothing
/// about the reply.
#[verifier::external_body]
pub(crate) fn ptrace_cont(pid: i32) -> (reply: Result<(), nix::Error>)
    requires
        pid > 0,
{
    ptrace::cont(Pid::from_raw(pid), None)
}

/// Calls `nix::sys::signal::kill` to send the kill signal to the process
/// `pid`. Claims nothing about the reply.
#[verifier::external_body]
pub(crate) fn send_kill(pid: i32) -> (reply: Result<(), nix::Error>)
    requires
        pid > 0,
{
    kill(Pid::from_raw(pid), Signal::SIGKILL)
}

/// Calls `nix::sys::ptrace::getregs` on the process `pid` and picks the
/// instruction pointer and the frame-base pointer out of the register set.
/// Claims nothing about the reply.
#[verifier::external_body]
pub(crate) fn get_registers(pid: i32) -> (reply: Result<Registers, nix::Error>)
    requires
        pid > 0,
{
    let regs = ptrace::getregs(Pid::from_raw(pid))?;
    Ok(Registers { rip: regs.rip as usize, rbp: regs.rbp as usize })
}

/// Calls `nix::sys::ptrace::read` for the machine word at `address` in the
/// memory of the process `pid`. Claims nothing about the reply.
#[verifier::external_body]
pub(crate) fn peek_word(pid: i32, address: usize) -> (reply: Result<usize, nix::Error>)
    requires
        pid > 0,
{
    let word = ptrace::read(Pid::from_raw(pid), address as ptrace::AddressType)?;
    Ok(word as usize)
}

} // verus!
