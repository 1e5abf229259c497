//! The stack walker: from the registers of a stopped process, through the
//! chain of saved frame pointers in its memory, to the list of active calls.

use vstd::prelude::*;
use vstd::string::*;
use crate::error::ReadError;
use crate::os::Registers;
use crate::symbols::{LookupError, SymbolTable};

verus! {

/// Size of a machine word of the target, the distance from a frame base to
/// the return address saved above it.
pub const WORD_SIZE: usize = 8;

/// Most frames that one walk reports. A frame chain that has not reached
/// the entry function by then is taken to be corrupt.
pub const MAX_DEPTH: usize = 4096;

/// One active call.
#[derive(Clone, Debug, PartialEq, Eq)]
pub struct Frame {
    /// Name of the function.
    pub function: String,
    /// Source file of the line being executed.
    pub file: String,
    /// Number of that line.
    pub line: usize,
    /// The instruction address that the frame was resolved from.
    pub address: usize,
}

/// Why a walk stopped before it reached the entry function.
#[derive(Clone, Copy, Debug, PartialEq, Eq, Structural)]
pub enum UnwindError {
    /// The registers of the process could not be read, so the walk had
    /// nowhere to start.
    Registers(ReadError),
    /// The saved linkage of the frame at `frame_base` could not be read.
    Read { frame_base: usize, cause: ReadError },
    /// No debug information owns `address`.
    Lookup { address: usize },
    /// The walk reported as many frames as it may and none was the entry
    /// function.
    DepthExceeded,
}

/// The frames that a walk found, innermost first, and how it ended. The
/// frames found before a failure are kept.
#[derive(Debug, PartialEq, Eq)]
pub struct Backtrace {
    pub frames: Vec<Frame>,
    pub end: Result<(), UnwindError>,
}

/// Whether `name` is the name of the program's entry function.
pub open spec fn is_entry_name(name: Seq<char>) -> bool {
    name == "main"@
}

/// Whether `name` is the name of the program's entry function.
pub fn is_entry(name: &String) -> (r: bool)
    ensures
        r == is_entry_name(name@),
{
    let entry = String::from_str("main");
    *name == entry
}

impl SymbolTable {
    /// The frame that `address` resolves to: the function and the source
    /// line that own it, if both are known.
    pub open spec fn frame_at(self, address: usize) -> Option<Frame> {
        match (self.line_at(address), self.function_at(address)) {
            (Some(line), Some(function)) => Some(
                Frame { function, file: line.file, line: line.number, address },
            ),
            _ => None,
        }
    }

    /// Resolves `address` into a frame. Fails exactly when the line or the
    /// function that owns the address is unknown.
    pub fn resolve(&self, address: usize) -> (found: Result<Frame, LookupError>)
        ensures
            match found {
                Ok(frame) => self.frame_at(address) == Some(frame),
                Err(e) => self.frame_at(address) is None && e.address == address,
            },
    {
        let line = match self.get_line_from_addr(address) {
            Ok(line) => line,
            Err(e) => {
                return Err(e);
            },
        };
        let function = match self.get_function_from_addr(address) {
            Ok(function) => function,
            Err(e) => {
                return Err(e);
            },
        };
        Ok(Frame { function, file: line.file, line: line.number, address })
    }
}

/// Whether the two words saved at the frame base `base` may be read as the
/// caller's position: the return address one word above the base, the
/// caller's frame base at the base itself.
pub open spec fn links<F: Fn(usize) -> Result<usize, ReadError>>(
    read: F,
    base: usize,
    caller: Registers,
) -> bool {
    &&& base + WORD_SIZE <= usize::MAX
    &&& call_ensures(read, ((base + WORD_SIZE) as usize,), Ok(caller.rip))
    &&& call_ensures(read, (base,), Ok(caller.rbp))
}

/// Whether reading the linkage saved at the frame base `base` may fail with
/// `cause`: the return address lies beyond the address space, or its read
/// fails, or the read of the caller's frame base fails after it.
pub open spec fn broken<F: Fn(usize) -> Result<usize, ReadError>>(
    read: F,
    base: usize,
    cause: ReadError,
) -> bool {
    if base + WORD_SIZE > usize::MAX {
        cause == ReadError::Fault
    } else {
        ||| call_ensures(read, ((base + WORD_SIZE) as usize,), Err(cause))
        ||| {
            &&& exists|ret: usize| call_ensures(read, ((base + WORD_SIZE) as usize,), Ok(ret))
            &&& call_ensures(read, (base,), Err(cause))
        }
    }
}

/// Whether `trace` is what a walk from `start` reports when it visits the
/// positions `path`, reading memory through `read` and reporting at most
/// `limit` frames.
///
/// The walk resolves the position it is at into a frame and stops there if
/// that is the entry function; else it follows the linkage saved at the
/// frame base to the caller's position.
pub open spec fn walks_along<F: Fn(usize) -> Result<usize, ReadError>>(
    read: F,
    symbols: SymbolTable,
    start: Registers,
    limit: usize,
    trace: Backtrace,
    path: Seq<Registers>,
) -> bool {
    let frames = trace.frames@;
    let n = frames.len() as int;
    &&& n <= limit
    &&& n <= path.len() <= n + 1
    &&& path.len() >= 1
    &&& path[0] == start
    &&& forall|i: int|
        0 <= i < path.len() - 1 ==> links(read, (#[trigger] path[i]).rbp, path[i + 1])
    &&& forall|i: int| 0 <= i < n ==> symbols.frame_at(path[i].rip) == Some(#[trigger] frames[i])
    &&& forall|i: int| 0 <= i < n - 1 ==> !is_entry_name((#[trigger] frames[i]).function@)
    &&& match trace.end {
        Ok(()) => path.len() == n && is_entry_name(frames[n - 1].function@),
        Err(UnwindError::Lookup { address }) => {
            &&& path.len() == n + 1
            &&& address == path[n].rip
            &&& symbols.frame_at(address) is None
            &&& n >= 1 ==> !is_entry_name(frames[n - 1].function@)
        },
        Err(UnwindError::Read { frame_base, cause }) => {
            &&& path.len() == n
            &&& !is_entry_name(frames[n - 1].function@)
            &&& frame_base == path[n - 1].rbp
            &&& broken(read, frame_base, cause)
        },
        Err(UnwindError::DepthExceeded) => {
            &&& n == limit
            &&& path.len() == n + 1
            &&& n >= 1 ==> !is_entry_name(frames[n - 1].function@)
        },
        Err(UnwindError::Registers(_)) => false,
    }
}

/// Whether `trace` is what a walk from `start` may report.
pub open spec fn walked<F: Fn(usize) -> Result<usize, ReadError>>(
    read: F,
    symbols: SymbolTable,
    start: Registers,
    limit: usize,
    trace: Backtrace,
) -> bool {
    exists|path: Seq<Registers>| #[trigger] walks_along(read, symbols, start, limit, trace, path)
}

/// Reconstructs the chain of active calls, innermost first.
///
/// Starting at the position `start`, the walk resolves the instruction
/// pointer into a frame and reports it; at the entry function it ends.
/// Otherwise it reads the return address one word above the frame base and
/// the caller's frame base at the frame base, both through `read`, and goes
/// on from there. It fails when an address cannot be resolved, when a read
/// fails, or when `limit` frames were reported and none was the entry
/// function; the frames found until then are reported all the same.
pub fn walk_stack<F: Fn(usize) -> Result<usize, ReadError>>(
    start: Registers,
    read: F,
    symbols: &SymbolTable,
    limit: usize,
) -> (trace: Backtrace)
    requires
        forall|address: usize| call_requires(read, (address,)),
    ensures
        walked(read, *symbols, start, limit, trace),
{
    let mut frames: Vec<Frame> = Vec::new();
    let mut at = start;
    let ghost mut path: Seq<Registers> = seq![start];
    while frames.len() < limit
        invariant
            forall|address: usize| call_requires(read, (address,)),
            frames.len() <= limit,
            path.len() == frames.len() + 1,
            path[0] == start,
            path[frames.len() as int] == at,
            forall|i: int|
                0 <= i < path.len() - 1 ==> links(read, (#[trigger] path[i]).rbp, path[i + 1]),
            forall|i: int|
                0 <= i < frames.len() ==> symbols.frame_at(path[i].rip) == Some(
                    #[trigger] frames@[i],
                ),
            forall|i: int|
                0 <= i < frames.len() ==> !is_entry_name((#[trigger] frames@[i]).function@),
        decreases limit - frames.len(),
    {
        let ghost before = frames@;
        match symbols.resolve(at.rip) {
            Err(_) => {
                let trace = Backtrace { frames, end: Err(UnwindError::Lookup { address: at.rip }) };
                assert(walks_along(read, *symbols, start, limit, trace, path));
                return trace;
            },
            Ok(frame) => {
                let at_entry = is_entry(&frame.function);
                frames.push(frame);
                if at_entry {
                    let trace = Backtrace { frames, end: Ok(()) };
                    assert(walks_along(read, *symbols, start, limit, trace, path));
                    return trace;
                }
            },
        }
        assert(forall|i: int| 0 <= i < before.len() ==> frames@[i] == before[i]);
        let slot = match at.rbp.checked_add(WORD_SIZE) {
            Some(slot) => slot,
            None => {
                let end = Err(UnwindError::Read { frame_base: at.rbp, cause: ReadError::Fault });
                let trace = Backtrace { frames, end };
                assert(walks_along(read, *symbols, start, limit, trace, path));
                return trace;
            },
        };
        let ret = match read(slot) {
            Ok(word) => word,
            Err(cause) => {
                let end = Err(UnwindError::Read { frame_base: at.rbp, cause });
                let trace = Backtrace { frames, end };
                assert(walks_along(read, *symbols, start, limit, trace, path));
                return trace;
            },
        };
        let saved = match read(at.rbp) {
            Ok(word) => word,
            Err(cause) => {
                let end = Err(UnwindError::Read { frame_base: at.rbp, cause });
                let trace = Backtrace { frames, end };
                assert(walks_along(read, *symbols, start, limit, trace, path));
                return trace;
            },
        };
        let ghost base = at.rbp;
        at = Registers { rip: ret, rbp: saved };
        proof {
            assert(links(read, base, at));
            path = path.push(at);
        }
    }
    let trace = Backtrace { frames, end: Err(UnwindError::DepthExceeded) };
    assert(walks_along(read, *symbols, start, limit, trace, path));
    trace
}

impl Backtrace {
    /// Whether the trace is one that a walk with at most `limit` frames may
    /// report, whatever the registers and the memory held: every frame is
    /// what its address resolves to, only the last frame can be the entry
    /// function, and the walk ended for the reason it gives.
    pub open spec fn consistent(self, symbols: SymbolTable, limit: usize) -> bool {
        let frames = self.frames@;
        let n = frames.len() as int;
        &&& n <= limit
        &&& forall|i: int|
            0 <= i < n ==> symbols.frame_at((#[trigger] frames[i]).address) == Some(frames[i])
        &&& forall|i: int| 0 <= i < n - 1 ==> !is_entry_name((#[trigger] frames[i]).function@)
        &&& match self.end {
            Ok(()) => n >= 1 && is_entry_name(frames[n - 1].function@),
            Err(UnwindError::Registers(_)) => n == 0,
            Err(UnwindError::Read { .. }) => n >= 1 && !is_entry_name(frames[n - 1].function@),
            Err(UnwindError::Lookup { address }) => {
                &&& symbols.frame_at(address) is None
                &&& n >= 1 ==> !is_entry_name(frames[n - 1].function@)
            },
            Err(UnwindError::DepthExceeded) => {
                &&& n == limit
                &&& n >= 1 ==> !is_entry_name(frames[n - 1].function@)
            },
        }
    }
}

/// What a walk reports is a consistent trace, whatever it read.
pub proof fn lemma_walked_consistent<F: Fn(usize) -> Result<usize, ReadError>>(
    read: F,
    symbols: SymbolTable,
    start: Registers,
    limit: usize,
    trace: Backtrace,
)
    requires
        walked(read, symbols, start, limit, trace),
    ensures
        trace.consistent(symbols, limit),
        trace.frames@.len() >= 1 ==> trace.frames@[0].address == start.rip,
{
    let path = choose|path: Seq<Registers>| #[trigger]
        walks_along(read, symbols, start, limit, trace, path);
    let frames = trace.frames@;
    assert forall|i: int| 0 <= i < frames.len() implies symbols.frame_at(
        (#[trigger] frames[i]).address,
    ) == Some(frames[i]) by {
        assert(symbols.frame_at(path[i].rip) == Some(frames[i]));
    }
    if frames.len() >= 1 {
        assert(symbols.frame_at(path[0].rip) == Some(frames[0]));
    }
}

/// Whether `read` has one answer only for `address`: the word `word`.
pub open spec fn reads_only<F: Fn(usize) -> Result<usize, ReadError>>(
    read: F,
    address: usize,
    word: usize,
) -> bool {
    forall|answer: Result<usize, ReadError>| #[trigger]
        call_ensures(read, (address,), answer) ==> answer == Ok::<usize, ReadError>(word)
}

/// Whether the memory behind `read` holds the frame chain `chain`: at each
/// frame base but the last, the return address and the frame base of the
/// next position, and nothing else to be read there.
pub open spec fn holds_chain<F: Fn(usize) -> Result<usize, ReadError>>(
    read: F,
    chain: Seq<Registers>,
) -> bool {
    forall|i: int|
        0 <= i < chain.len() - 1 ==> {
            &&& (#[trigger] chain[i]).rbp + WORD_SIZE <= usize::MAX
            &&& reads_only(read, (chain[i].rbp + WORD_SIZE) as usize, chain[i + 1].rip)
            &&& reads_only(read, chain[i].rbp, chain[i + 1].rbp)
        }
}

/// A walk over memory that holds a frame chain visits the chain's
/// positions, one after the other.
proof fn lemma_path_follows_chain<F: Fn(usize) -> Result<usize, ReadError>>(
    read: F,
    chain: Seq<Registers>,
    path: Seq<Registers>,
    i: int,
)
    requires
        holds_chain(read, chain),
        0 <= i < chain.len(),
        i < path.len(),
        path[0] == chain[0],
        forall|j: int|
            0 <= j < path.len() - 1 ==> links(read, (#[trigger] path[j]).rbp, path[j + 1]),
    ensures
        path[i] == chain[i],
    decreases i,
{
    if i > 0 {
        lemma_path_follows_chain(read, chain, path, i - 1);
        let from = chain[i - 1];
        assert(path[i - 1] == from);
        assert(links(read, path[i - 1].rbp, path[i]));
        assert(reads_only(read, (from.rbp + WORD_SIZE) as usize, chain[i].rip));
        assert(reads_only(read, from.rbp, chain[i].rbp));
        assert(Ok::<usize, ReadError>(path[i].rip) == Ok::<usize, ReadError>(chain[i].rip));
        assert(Ok::<usize, ReadError>(path[i].rbp) == Ok::<usize, ReadError>(chain[i].rbp));
    }
}

/// A walk over a frame chain of depth k, whose last position and no
/// earlier one resolves to the entry function, reports exactly the k frames
/// that the chain's positions resolve to, innermost first, and succeeds.
pub proof fn lemma_walk_reports_chain<F: Fn(usize) -> Result<usize, ReadError>>(
    read: F,
    symbols: SymbolTable,
    chain: Seq<Registers>,
    expected: Seq<Frame>,
    limit: usize,
    trace: Backtrace,
)
    requires
        1 <= chain.len() <= limit,
        expected.len() == chain.len(),
        holds_chain(read, chain),
        forall|i: int|
            0 <= i < chain.len() ==> symbols.frame_at((#[trigger] chain[i]).rip) == Some(
                expected[i],
            ),
        forall|i: int|
            0 <= i < expected.len() - 1 ==> !is_entry_name((#[trigger] expected[i]).function@),
        is_entry_name(expected.last().function@),
        walked(read, symbols, chain[0], limit, trace),
    ensures
        trace.frames@ == expected,
        trace.end is Ok,
{
    let path = choose|path: Seq<Registers>| #[trigger]
        walks_along(read, symbols, chain[0], limit, trace, path);
    let frames = trace.frames@;
    let n = frames.len() as int;
    let k = chain.len() as int;
    assert forall|i: int| 0 <= i < k && i < path.len() implies path[i] == chain[i] by {
        lemma_path_follows_chain(read, chain, path, i);
    }
    assert forall|i: int| 0 <= i < k && i < n implies frames[i] == expected[i] by {
        assert(symbols.frame_at(path[i].rip) == Some(frames[i]));
        assert(symbols.frame_at(chain[i].rip) == Some(expected[i]));
    }
    if n < k {
        // The walk ended inside the chain, where every frame resolves, no
        // frame is the entry function and every link can be read.
        if n >= 1 {
            assert(frames[n - 1] == expected[n - 1]);
            assert(!is_entry_name(expected[n - 1].function@));
        }
        match trace.end {
            Ok(()) => {},
            Err(UnwindError::Lookup { address }) => {
                assert(path[n] == chain[n]);
                assert(symbols.frame_at(chain[n].rip) is Some);
            },
            Err(UnwindError::Read { frame_base, cause }) => {
                let from = chain[n - 1];
                assert(path[n - 1] == from);
                assert(reads_only(read, (from.rbp + WORD_SIZE) as usize, chain[n].rip));
                assert(reads_only(read, from.rbp, chain[n].rbp));
            },
            Err(UnwindError::DepthExceeded) => {},
            Err(UnwindError::Registers(_)) => {},
        }
        assert(false);
    }
    if n > k {
        assert(frames[k - 1] == expected[k - 1]);
        assert(!is_entry_name(frames[k - 1].function@));
        assert(false);
    }
    assert(frames[n - 1] == expected.last());
    assert(is_entry_name(frames[n - 1].function@));
    match trace.end {
        Ok(()) => {},
        Err(_) => {
            assert(false);
        },
    }
    assert(frames =~= expected);
}

} // verus!
