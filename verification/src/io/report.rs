//! The report of the state of all inputs and outputs.
//!
//! A node that is asked for its state tells one line at a time: first the
//! outputs, in the order of their table, then the inputs of each expander,
//! in the order of the lines. The lines are sent with a pause between them,
//! so that a slow bus can drain.

use vstd::prelude::*;
use crate::io::events::IoIdx;
use crate::io::expander_inputs::{line_active, ExpanderInputs};
use crate::io::indexed_outputs::{IndexedOutputs, OutputsView};

verus! {

/// Pause between two lines of a report, in milliseconds.
pub const STATUS_GAP_MS: u32 = 1;

/// State of a line in a report.
#[derive(Clone, Copy, Debug, PartialEq, Eq, Structural)]
pub enum IoState {
    Off,
    On,
    /// The expander of the line does not answer.
    Error,
}

/// One line of a report.
#[derive(Clone, Copy, Debug, PartialEq, Eq, Structural)]
pub struct StatusIO {
    pub io: IoIdx,
    pub state: IoState,
}

/// One step of sending a report.
#[derive(Clone, Copy, Debug, PartialEq, Eq, Structural)]
pub enum Paced {
    /// Send this line.
    Send(StatusIO),
    /// Wait this many milliseconds.
    Pause(u32),
}

/// The state that stands for on or off.
pub open spec fn state_of(on: bool) -> IoState {
    if on {
        IoState::On
    } else {
        IoState::Off
    }
}

/// The lines of the outputs: every output of the table, with what was
/// asked of it last.
pub open spec fn output_lines(outputs: OutputsView) -> Seq<StatusIO> {
    Seq::new(
        outputs.table.len(),
        |at: int| StatusIO { io: outputs.table[at].idx, state: state_of(outputs.cached[at]) },
    )
}

/// The lines of one expander of inputs: a line is on while it is active;
/// all are in error while the expander does not answer.
pub open spec fn input_lines(scanner: ExpanderInputs) -> Seq<StatusIO> {
    Seq::new(
        16,
        |pos: int|
            StatusIO {
                io: scanner.io_indices[pos],
                state: if scanner.expander_online {
                    state_of(line_active(scanner.last_input, pos as u16))
                } else {
                    IoState::Error
                },
            },
    )
}

/// The lines of the first `upto` expanders of inputs.
pub open spec fn all_input_lines(scanners: Seq<ExpanderInputs>, upto: int) -> Seq<StatusIO>
    decreases upto,
{
    if upto <= 0 {
        Seq::empty()
    } else {
        all_input_lines(scanners, upto - 1) + input_lines(scanners[upto - 1])
    }
}

/// The whole report.
pub open spec fn report_lines(outputs: OutputsView, scanners: Seq<ExpanderInputs>) -> Seq<StatusIO> {
    output_lines(outputs) + all_input_lines(scanners, scanners.len() as int)
}

/// The steps that send some lines: the lines in their order, with a pause
/// between each two.
pub open spec fn paced(lines: Seq<StatusIO>) -> Seq<Paced> {
    Seq::new(
        if lines.len() == 0 {
            0
        } else {
            (2 * lines.len() - 1) as nat
        },
        |at: int|
            if at % 2 == 0 {
                Paced::Send(lines[at / 2])
            } else {
                Paced::Pause(STATUS_GAP_MS)
            },
    )
}

/// The first `upto` expanders of inputs have 16 lines each.
pub proof fn lemma_input_lines_length(scanners: Seq<ExpanderInputs>, upto: int)
    requires
        0 <= upto <= scanners.len(),
    ensures
        all_input_lines(scanners, upto).len() == 16 * upto,
    decreases upto,
{
    if upto > 0 {
        lemma_input_lines_length(scanners, upto - 1);
    }
}

/// A report has one line for each output and 16 for each expander of
/// inputs, and its sending has a pause between each two lines.
pub proof fn lemma_report_length(outputs: OutputsView, scanners: Seq<ExpanderInputs>)
    ensures
        report_lines(outputs, scanners).len() == outputs.table.len() + 16 * scanners.len(),
        forall|at: int|
            0 <= at < outputs.table.len() ==> (#[trigger] report_lines(outputs, scanners)[at])
                == (StatusIO { io: outputs.table[at].idx, state: state_of(outputs.cached[at]) }),
        report_lines(outputs, scanners).len() > 0 ==> paced(
            report_lines(outputs, scanners),
        ).len() == 2 * report_lines(outputs, scanners).len() - 1,
{
    lemma_input_lines_length(scanners, scanners.len() as int);
}

fn exec_state(on: bool) -> (state: IoState)
    ensures
        state == state_of(on),
{
    if on {
        IoState::On
    } else {
        IoState::Off
    }
}

/// Makes the report of a node.
pub fn status_report(outputs: &IndexedOutputs, scanners: &[ExpanderInputs]) -> (lines: Vec<StatusIO>)
    ensures
        lines@ == report_lines(outputs@, scanners@),
{
    let mut lines: Vec<StatusIO> = Vec::new();
    let all = outputs.get_all();
    let mut at: usize = 0;
    while at < all.len()
        invariant
            at <= all@.len(),
            all@ == outputs@.get_all(),
            lines@ == output_lines(outputs@).subrange(0, at as int),
        decreases all@.len() - at,
    {
        let (io, on) = all[at];
        lines.push(StatusIO { io, state: exec_state(on) });
        assert(lines@ =~= output_lines(outputs@).subrange(0, at + 1));
        at += 1;
    }
    assert(lines@ =~= output_lines(outputs@));
    let mut no: usize = 0;
    while no < scanners.len()
        invariant
            no <= scanners@.len(),
            lines@ == output_lines(outputs@) + all_input_lines(scanners@, no as int),
        decreases scanners@.len() - no,
    {
        let scanner = &scanners[no];
        let inputs = scanner.get_inputs();
        let ghost before = lines@;
        let mut pos: usize = 0;
        while pos < 16
            invariant
                pos <= 16,
                *scanner == scanners@[no as int],
                inputs is Some <==> scanner.expander_online,
                inputs is Some ==> forall|k: int|
                    0 <= k < 16 ==> (#[trigger] inputs.unwrap()[k]) == (
                        scanner.io_indices[k],
                        !line_active(scanner.last_input, k as u16),
                    ),
                lines@ == before + input_lines(*scanner).subrange(0, pos as int),
            decreases 16 - pos,
        {
            let line = match inputs {
                Some(read) => {
                    let (io, high) = read[pos];
                    StatusIO { io, state: exec_state(!high) }
                },
                None => StatusIO { io: scanner.io_indices[pos], state: IoState::Error },
            };
            lines.push(line);
            assert(lines@ =~= before + input_lines(*scanner).subrange(0, pos + 1));
            pos += 1;
        }
        assert(lines@ =~= output_lines(outputs@) + all_input_lines(scanners@, no + 1)) by {
            assert(input_lines(*scanner).subrange(0, 16) =~= input_lines(*scanner));
        }
        no += 1;
    }
    lines
}

/// Lays out the sending of some lines: a pause stands between each two.
pub fn pace(lines: &Vec<StatusIO>) -> (steps: Vec<Paced>)
    ensures
        steps@ == paced(lines@),
{
    let mut steps: Vec<Paced> = Vec::new();
    let mut at: usize = 0;
    while at < lines.len()
        invariant
            at <= lines@.len(),
            steps@.len() == if at == 0 {
                0
            } else {
                2 * at - 1
            },
            forall|k: int| 0 <= k < steps@.len() ==> steps@[k] == paced(lines@)[k],
            steps@.len() <= paced(lines@).len(),
        decreases lines@.len() - at,
    {
        if at > 0 {
            steps.push(Paced::Pause(STATUS_GAP_MS));
        }
        steps.push(Paced::Send(lines[at]));
        at += 1;
    }
    assert(steps@ =~= paced(lines@));
    steps
}

} // verus!
