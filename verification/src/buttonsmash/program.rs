//! What makes a sequence of opcodes a program.
//!
//! A program holds its procedures as `Start(p) ... Stop`. No procedure is
//! held twice, and every `Start` is followed by its `Stop` before the next
//! `Start`. Opcodes between a `Stop` and the next `Start` belong to no
//! procedure and never run.

use vstd::prelude::*;
use crate::buttonsmash::consts::{MAX_OPCODES, MAX_PROCEDURES};
use crate::buttonsmash::opcodes::Opcode;

verus! {

/// Why a sequence of opcodes is no program.
#[derive(Clone, Copy, Debug, PartialEq, Eq, Structural)]
pub enum Defect {
    /// It has more opcodes than the machine holds.
    TooLong,
    /// It starts a procedure beyond the highest one.
    BadProcedure,
    /// It starts a procedure twice.
    DuplicateProcedure,
    /// It starts a procedure that no `Stop` ends.
    UnclosedProcedure,
}

/// Whether the opcode at an offset is a `Start`.
pub open spec fn is_start(opcodes: Seq<Opcode>, at: int) -> bool {
    0 <= at < opcodes.len() && opcodes[at] is Start
}

/// Whether the opcode at an offset is a `Stop`.
pub open spec fn is_stop(opcodes: Seq<Opcode>, at: int) -> bool {
    0 <= at < opcodes.len() && opcodes[at] == Opcode::Stop
}

/// Whether an opcode, if it is a `Start`, names a procedure that the machine
/// can hold.
pub open spec fn procedure_fits(opcode: Opcode) -> bool {
    match opcode {
        Opcode::Start(proc) => proc < MAX_PROCEDURES,
        _ => true,
    }
}

/// Whether the `Start` opcodes of a sequence name procedures that the
/// machine can hold.
pub open spec fn procedures_fit(opcodes: Seq<Opcode>) -> bool {
    forall|at: int| 0 <= at < opcodes.len() ==> procedure_fits(#[trigger] opcodes[at])
}

/// Whether no procedure is started twice.
pub open spec fn unique_procedures(opcodes: Seq<Opcode>) -> bool {
    forall|i: int, j: int|
        #![trigger is_start(opcodes, i), is_start(opcodes, j)]
        is_start(opcodes, i) && is_start(opcodes, j) && i < j ==> opcodes[i] != opcodes[j]
}

/// Whether the `Start` at an offset is matched: a `Stop` follows it before
/// any other `Start`.
pub open spec fn matched(opcodes: Seq<Opcode>, at: int) -> bool {
    exists|stop: int|
        #![trigger is_stop(opcodes, stop)]
        is_stop(opcodes, stop) && at < stop && forall|k: int|
            at < k < stop ==> !#[trigger] is_start(opcodes, k)
}

/// Whether every `Start` is matched.
pub open spec fn all_matched(opcodes: Seq<Opcode>) -> bool {
    forall|at: int| #[trigger] is_start(opcodes, at) ==> matched(opcodes, at)
}

/// Whether a sequence of opcodes is a program.
pub open spec fn well_formed(opcodes: Seq<Opcode>) -> bool {
    &&& opcodes.len() <= MAX_OPCODES
    &&& procedures_fit(opcodes)
    &&& unique_procedures(opcodes)
    &&& all_matched(opcodes)
}

/// The first thing that keeps a sequence of opcodes from being a program,
/// in the order of [`Defect`]; `None` for a program.
pub open spec fn spec_defect(opcodes: Seq<Opcode>) -> Option<Defect> {
    if opcodes.len() > MAX_OPCODES {
        Some(Defect::TooLong)
    } else if !procedures_fit(opcodes) {
        Some(Defect::BadProcedure)
    } else if !unique_procedures(opcodes) {
        Some(Defect::DuplicateProcedure)
    } else if !all_matched(opcodes) {
        Some(Defect::UnclosedProcedure)
    } else {
        None
    }
}

fn fit(program: &[Opcode]) -> (fits: bool)
    ensures
        fits == procedures_fit(program@),
{
    let mut at: usize = 0;
    while at < program.len()
        invariant
            at <= program@.len(),
            forall|k: int| 0 <= k < at ==> procedure_fits(#[trigger] program@[k]),
        decreases program@.len() - at,
    {
        if let Opcode::Start(proc) = program[at] {
            if proc as usize >= MAX_PROCEDURES {
                assert(!procedure_fits(program@[at as int]));
                return false;
            }
        }
        at += 1;
    }
    true
}

fn unique(program: &[Opcode]) -> (unique: bool)
    requires
        procedures_fit(program@),
    ensures
        unique == unique_procedures(program@),
{
    let ghost ops = program@;
    let mut seen: [bool; 128] = [false;128];
    let ghost mut first: Seq<int> = Seq::new(128, |p: int| 0int);
    let mut at: usize = 0;
    while at < program.len()
        invariant
            at <= ops.len(),
            ops == program@,
            procedures_fit(ops),
            first.len() == 128,
            forall|p: int|
                0 <= p < 128 && #[trigger] seen[p] ==> 0 <= first[p] < at && ops[first[p]]
                    == Opcode::Start(p as u8),
            forall|p: int, i: int|
                0 <= p < 128 && !#[trigger] seen[p] && 0 <= i < at ==> #[trigger] ops[i]
                    != Opcode::Start(p as u8),
            forall|i: int, j: int|
                #![trigger is_start(ops, i), is_start(ops, j)]
                is_start(ops, i) && is_start(ops, j) && i < j < at ==> ops[i] != ops[j],
        decreases ops.len() - at,
    {
        if let Opcode::Start(proc) = program[at] {
            assert(procedure_fits(ops[at as int]));
            if seen[proc as usize] {
                assert(is_start(ops, first[proc as int]) && is_start(ops, at as int));
                return false;
            }
            assert forall|i: int, j: int|
                #![trigger is_start(ops, i), is_start(ops, j)]
                is_start(ops, i) && is_start(ops, j) && i < j < at + 1 implies ops[i] != ops[j] by {
                if j == at {
                    assert(!seen[proc as int]);
                }
            }
            seen[proc as usize] = true;
            proof {
                first = first.update(proc as int, at as int);
            }
        }
        at += 1;
    }
    true
}

fn closed(program: &[Opcode]) -> (closed: bool)
    ensures
        closed == all_matched(program@),
{
    let ghost ops = program@;
    let mut open: bool = false;
    let ghost mut open_at: int = 0;
    let mut at: usize = 0;
    while at < program.len()
        invariant
            at <= ops.len(),
            ops == program@,
            open ==> 0 <= open_at < at && is_start(ops, open_at),
            open ==> forall|k: int| open_at < k < at ==> !#[trigger] is_start(ops, k),
            open ==> forall|k: int| open_at < k < at ==> !#[trigger] is_stop(ops, k),
            forall|i: int|
                0 <= i < at && #[trigger] is_start(ops, i) && !(open && i == open_at) ==> matched(
                    ops,
                    i,
                ),
        decreases ops.len() - at,
    {
        match program[at] {
            Opcode::Start(_) => {
                if open {
                    proof {
                        lemma_unmatched(ops, open_at, at as int);
                    }
                    return false;
                }
                open = true;
                proof {
                    open_at = at as int;
                }
            },
            Opcode::Stop => {
                if open {
                    assert(is_stop(ops, at as int));
                    assert(matched(ops, open_at));
                    open = false;
                }
            },
            _ => {},
        }
        at += 1;
    }
    if open {
        proof {
            lemma_unmatched(ops, open_at, ops.len() as int);
        }
        return false;
    }
    true
}

/// A `Start` that is followed by neither `Start` nor `Stop` up to an offset
/// where the sequence ends or another `Start` stands is not matched.
proof fn lemma_unmatched(ops: Seq<Opcode>, open_at: int, at: int)
    requires
        is_start(ops, open_at),
        open_at < at <= ops.len(),
        at == ops.len() || is_start(ops, at),
        forall|k: int| open_at < k < at ==> !#[trigger] is_start(ops, k),
        forall|k: int| open_at < k < at ==> !#[trigger] is_stop(ops, k),
    ensures
        !matched(ops, open_at),
        !all_matched(ops),
{
    assert forall|stop: int|
        #![trigger is_stop(ops, stop)]
        !(is_stop(ops, stop) && open_at < stop && forall|k: int|
            open_at < k < stop ==> !#[trigger] is_start(ops, k)) by {
        if is_stop(ops, stop) && open_at < stop {
            if stop < at {
                assert(!is_stop(ops, stop));
            } else {
                assert(is_start(ops, at));
            }
        }
    }
}

/// Looks for what keeps a sequence of opcodes from being a program.
pub fn defect(program: &[Opcode]) -> (found: Option<Defect>)
    ensures
        found == spec_defect(program@),
        found is None <==> well_formed(program@),
{
    if program.len() > MAX_OPCODES {
        Some(Defect::TooLong)
    } else if !fit(program) {
        Some(Defect::BadProcedure)
    } else if !unique(program) {
        Some(Defect::DuplicateProcedure)
    } else if !closed(program) {
        Some(Defect::UnclosedProcedure)
    } else {
        None
    }
}

} // verus!
