//! The symbol table: which function and which source line own an address.
//!
//! The table is plain data, filled once from the target's debug information
//! by whoever loaded it, and never changed afterwards. Both queries are pure.

use vstd::prelude::*;

verus! {

/// A function of the target and the half-open range of addresses
/// `low_pc .. high_pc` that its code occupies.
#[derive(Clone, Debug, PartialEq, Eq)]
pub struct FunctionSymbol {
    pub name: String,
    pub low_pc: usize,
    pub high_pc: usize,
}

/// A row of the line table: the half-open range of addresses
/// `low_pc .. high_pc` was compiled from line `number` of `file`.
#[derive(Clone, Debug, PartialEq, Eq)]
pub struct LineRow {
    pub file: String,
    pub number: usize,
    pub low_pc: usize,
    pub high_pc: usize,
}

/// A position in the target's source text.
#[derive(Clone, Debug, PartialEq, Eq)]
pub struct SourceLine {
    pub file: String,
    pub number: usize,
}

/// The address lies outside every range the table knows.
#[derive(Clone, Copy, Debug, PartialEq, Eq, Structural)]
pub struct LookupError {
    pub address: usize,
}

/// The debug information of one target.
#[derive(Clone, Debug, PartialEq, Eq)]
pub struct SymbolTable {
    pub functions: Vec<FunctionSymbol>,
    pub lines: Vec<LineRow>,
}

impl FunctionSymbol {
    /// Whether `address` lies in the function's code.
    pub open spec fn covers(self, address: usize) -> bool {
        self.low_pc <= address < self.high_pc
    }
}

impl LineRow {
    /// Whether `address` lies in the row's range.
    pub open spec fn covers(self, address: usize) -> bool {
        self.low_pc <= address < self.high_pc
    }

    /// The source position the row stands for.
    pub open spec fn position(self) -> SourceLine {
        SourceLine { file: self.file, number: self.number }
    }
}

/// The first function in table order whose code holds `address`.
pub open spec fn first_function(functions: Seq<FunctionSymbol>, address: usize) -> Option<
    FunctionSymbol,
>
    decreases functions.len(),
{
    if functions.len() == 0 {
        None
    } else if functions[0].covers(address) {
        Some(functions[0])
    } else {
        first_function(functions.drop_first(), address)
    }
}

/// The first row in table order whose range holds `address`.
pub open spec fn first_row(rows: Seq<LineRow>, address: usize) -> Option<LineRow>
    decreases rows.len(),
{
    if rows.len() == 0 {
        None
    } else if rows[0].covers(address) {
        Some(rows[0])
    } else {
        first_row(rows.drop_first(), address)
    }
}

/// `first_function` finds a function exactly when some function holds the
/// address, and then it is the one that no earlier function precedes.
pub proof fn lemma_first_function(functions: Seq<FunctionSymbol>, address: usize)
    ensures
        first_function(functions, address) is None <==> forall|i: int|
            0 <= i < functions.len() ==> !(#[trigger] functions[i]).covers(address),
        first_function(functions, address) matches Some(f) ==> exists|i: int|
            0 <= i < functions.len() && #[trigger] functions[i] == f && f.covers(address)
                && forall|j: int| 0 <= j < i ==> !(#[trigger] functions[j]).covers(address),
    decreases functions.len(),
{
    if functions.len() > 0 {
        let rest = functions.drop_first();
        lemma_first_function(rest, address);
        assert(forall|i: int| 0 <= i < rest.len() ==> rest[i] == functions[i + 1]);
        if functions[0].covers(address) {
            assert(functions[0] == first_function(functions, address)->0);
        } else {
            assert forall|i: int| 0 <= i < functions.len() && first_function(
                functions,
                address,
            ) is None implies !(#[trigger] functions[i]).covers(address) by {
                if i > 0 {
                    assert(rest[i - 1] == functions[i]);
                }
            }
            if first_function(functions, address) is Some {
                let f = first_function(functions, address)->0;
                let i = choose|i: int|
                    0 <= i < rest.len() && #[trigger] rest[i] == f && f.covers(address)
                        && forall|j: int| 0 <= j < i ==> !(#[trigger] rest[j]).covers(address);
                assert(functions[i + 1] == f);
                assert forall|j: int| 0 <= j < i + 1 implies !(#[trigger] functions[j]).covers(
                    address,
                ) by {
                    if j > 0 {
                        assert(rest[j - 1] == functions[j]);
                    }
                }
            }
        }
    }
}

/// `first_row` finds a row exactly when some row holds the address, and
/// then it is the one that no earlier row precedes.
pub proof fn lemma_first_row(rows: Seq<LineRow>, address: usize)
    ensures
        first_row(rows, address) is None <==> forall|i: int|
            0 <= i < rows.len() ==> !(#[trigger] rows[i]).covers(address),
        first_row(rows, address) matches Some(r) ==> exists|i: int|
            0 <= i < rows.len() && #[trigger] rows[i] == r && r.covers(address) && forall|j: int|
                0 <= j < i ==> !(#[trigger] rows[j]).covers(address),
    decreases rows.len(),
{
    if rows.len() > 0 {
        let rest = rows.drop_first();
        lemma_first_row(rest, address);
        assert(forall|i: int| 0 <= i < rest.len() ==> rest[i] == rows[i + 1]);
        if rows[0].covers(address) {
            assert(rows[0] == first_row(rows, address)->0);
        } else {
            assert forall|i: int| 0 <= i < rows.len() && first_row(
                rows,
                address,
            ) is None implies !(#[trigger] rows[i]).covers(address) by {
                if i > 0 {
                    assert(rest[i - 1] == rows[i]);
                }
            }
            if first_row(rows, address) is Some {
                let r = first_row(rows, address)->0;
                let i = choose|i: int|
                    0 <= i < rest.len() && #[trigger] rest[i] == r && r.covers(address)
                        && forall|j: int| 0 <= j < i ==> !(#[trigger] rest[j]).covers(address);
                assert(rows[i + 1] == r);
                assert forall|j: int| 0 <= j < i + 1 implies !(#[trigger] rows[j]).covers(
                    address,
                ) by {
                    if j > 0 {
                        assert(rest[j - 1] == rows[j]);
                    }
                }
            }
        }
    }
}

impl SymbolTable {
    /// The name of the function that owns `address`, if any does.
    pub open spec fn function_at(self, address: usize) -> Option<String> {
        match first_function(self.functions@, address) {
            Some(f) => Some(f.name),
            None => None,
        }
    }

    /// The source position that owns `address`, if any does.
    pub open spec fn line_at(self, address: usize) -> Option<SourceLine> {
        match first_row(self.lines@, address) {
            Some(r) => Some(r.position()),
            None => None,
        }
    }

    /// A table with the given functions and line rows.
    pub fn new(functions: Vec<FunctionSymbol>, lines: Vec<LineRow>) -> (table: SymbolTable)
        ensures
            table.functions == functions,
            table.lines == lines,
    {
        SymbolTable { functions, lines }
    }

    /// Names the function whose code holds `address`: the first such
    /// function in table order. Fails exactly when no function holds it.
    pub fn get_function_from_addr(&self, address: usize) -> (found: Result<String, LookupError>)
        ensures
            match found {
                Ok(name) => self.function_at(address) == Some(name),
                Err(e) => self.function_at(address) is None && e.address == address,
            },
    {
        let mut i: usize = 0;
        assert(self.functions@.skip(0) == self.functions@);
        while i < self.functions.len()
            invariant
                i <= self.functions.len(),
                first_function(self.functions@, address) == first_function(
                    self.functions@.skip(i as int),
                    address,
                ),
            decreases self.functions.len() - i,
        {
            let f = &self.functions[i];
            proof {
                let tail = self.functions@.skip(i as int);
                assert(tail[0] == self.functions@[i as int]);
                assert(tail.drop_first() == self.functions@.skip(i + 1));
            }
            if f.low_pc <= address && address < f.high_pc {
                return Ok(f.name.clone());
            }
            i += 1;
        }
        Err(LookupError { address })
    }

    /// Gives the source position that `address` was compiled from: that of
    /// the first row in table order whose range holds it. Fails exactly
    /// when no row holds it.
    pub fn get_line_from_addr(&self, address: usize) -> (found: Result<SourceLine, LookupError>)
        ensures
            match found {
                Ok(line) => self.line_at(address) == Some(line),
                Err(e) => self.line_at(address) is None && e.address == address,
            },
    {
        let mut i: usize = 0;
        assert(self.lines@.skip(0) == self.lines@);
        while i < self.lines.len()
            invariant
                i <= self.lines.len(),
                first_row(self.lines@, address) == first_row(self.lines@.skip(i as int), address),
            decreases self.lines.len() - i,
        {
            let r = &self.lines[i];
            proof {
                let tail = self.lines@.skip(i as int);
                assert(tail[0] == self.lines@[i as int]);
                assert(tail.drop_first() == self.lines@.skip(i + 1));
            }
            if r.low_pc <= address && address < r.high_pc {
                return Ok(SourceLine { file: r.file.clone(), number: r.number });
            }
            i += 1;
        }
        Err(LookupError { address })
    }
}

} // verus!
