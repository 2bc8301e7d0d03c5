//! The output driver: logical outputs on expander bits and native pins.
//!
//! Every output has a name, a place (a bit of an expander or a native pin)
//! and a wiring. The driver keeps what was asked of each output and, for
//! each expander, the word that was written to it last, since an expander
//! takes all its 16 bits at once. It does not write itself: it says what to
//! write and is told how the write went. A write that failed changes
//! nothing.

use vstd::prelude::*;
use crate::actuator::PinType;
use crate::boards::io_router::IOCommand;
use crate::components::message::{Message, OutputState};
use crate::components::status::Problem;
use crate::io::events::IoIdx;

verus! {

/// Number of bits of an expander.
pub const EXPANDER_BITS: u8 = 16;

/// Where an output is.
#[derive(Clone, Copy, Debug, PartialEq, Eq, Structural)]
pub enum Place {
    /// A bit of an expander: the number of the expander, then the bit.
    Expander(u8, u8),
    /// A pin of the controller.
    Native(u8),
}

/// One output of the table.
#[derive(Clone, Copy, Debug, PartialEq, Eq, Structural)]
pub struct Output {
    pub idx: IoIdx,
    pub place: Place,
    pub pin_type: PinType,
}

/// What to write to the hardware.
#[derive(Clone, Copy, Debug, PartialEq, Eq, Structural)]
pub enum PinWrite {
    /// Write this word to the expander of this number.
    Expander { expander_no: u8, word: u16 },
    /// Set the native pin of this number high or low.
    Native { pin_no: u8, high: bool },
}

/// A word with one bit set to a level.
pub open spec fn spec_with_bit(word: u16, bit: u8, high: bool) -> u16 {
    if high {
        word | (1u16 << bit)
    } else {
        word & !(1u16 << bit)
    }
}

fn with_bit(word: u16, bit: u8, high: bool) -> (res: u16)
    requires
        bit < EXPANDER_BITS,
    ensures
        res == spec_with_bit(word, bit, high),
{
    let mask: u16 = 1u16 << (bit as u16);
    assert(1u16 << bit == 1u16 << (bit as u16)) by (bit_vector)
        requires
            bit < 16,
    ;
    if high {
        word | mask
    } else {
        word & !mask
    }
}

/// What the driver holds.
pub struct OutputsView {
    /// The table of outputs.
    pub table: Seq<Output>,
    /// What was asked of each output of the table last, `true` for on.
    pub cached: Seq<bool>,
    /// The word that each expander holds.
    pub words: Seq<u16>,
}

impl OutputsView {
    /// Whether the places of the table exist: every expander bit is one of
    /// the 16 bits of an expander that the driver has.
    pub open spec fn wf(self) -> bool {
        &&& self.cached.len() == self.table.len()
        &&& self.words.len() <= u8::MAX
        &&& forall|at: int| 0 <= at < self.table.len() ==> self.placed(#[trigger] self.table[at])
    }

    pub open spec fn placed(self, output: Output) -> bool {
        match output.place {
            Place::Expander(expander_no, bit) => expander_no < self.words.len() && bit
                < EXPANDER_BITS,
            Place::Native(_) => true,
        }
    }

    /// Place in the table of the first output of a name at or after `from`.
    pub open spec fn find_from(self, idx: IoIdx, from: int) -> Option<int>
        decreases self.table.len() - from,
    {
        if from < 0 || from >= self.table.len() {
            None
        } else if self.table[from].idx == idx {
            Some(from)
        } else {
            self.find_from(idx, from + 1)
        }
    }

    /// Place in the table of an output.
    pub open spec fn find(self, idx: IoIdx) -> Option<int> {
        self.find_from(idx, 0)
    }

    /// What was asked of an output last; `None` for a name that the table
    /// does not hold.
    pub open spec fn get(self, idx: IoIdx) -> Option<bool> {
        match self.find(idx) {
            Some(at) => Some(self.cached[at]),
            None => None,
        }
    }

    /// The names of all outputs with what was asked of each, in the order
    /// of the table.
    pub open spec fn get_all(self) -> Seq<(IoIdx, bool)> {
        Seq::new(self.table.len(), |at: int| (self.table[at].idx, self.cached[at]))
    }

    /// What to write so that the output at a place of the table is on or off.
    pub open spec fn write_for(self, at: int, on: bool) -> PinWrite {
        let output = self.table[at];
        let high = output.pin_type.spec_level(on);
        match output.place {
            Place::Expander(expander_no, bit) => PinWrite::Expander {
                expander_no,
                word: spec_with_bit(self.words[expander_no as int], bit, high),
            },
            Place::Native(pin_no) => PinWrite::Native { pin_no, high },
        }
    }

    /// The driver after the output at a place of the table was switched.
    pub open spec fn switched(self, at: int, on: bool) -> OutputsView {
        OutputsView {
            cached: self.cached.update(at, on),
            words: match self.write_for(at, on) {
                PinWrite::Expander { expander_no, word } => self.words.update(
                    expander_no as int,
                    word,
                ),
                PinWrite::Native { .. } => self.words,
            },
            ..self
        }
    }

    /// What a command asks of its output: on or off. `None` for a name
    /// that the table does not hold.
    pub open spec fn wanted(self, command: IOCommand) -> Option<bool> {
        match self.get(command.spec_output()) {
            Some(on) => Some(
                match command {
                    IOCommand::ToggleOutput(_) => !on,
                    IOCommand::ActivateOutput(_) => true,
                    IOCommand::DeactivateOutput(_) => false,
                },
            ),
            None => None,
        }
    }

    /// What to write for a command.
    pub open spec fn request(self, command: IOCommand) -> Option<PinWrite> {
        match self.wanted(command) {
            Some(on) => Some(self.write_for(self.find(command.spec_output()).unwrap(), on)),
            None => None,
        }
    }

    /// The driver after a command, given how the write went, and whether
    /// the command was carried out.
    pub open spec fn applied(self, command: IOCommand, written: bool) -> (OutputsView, Option<bool>) {
        match self.wanted(command) {
            Some(on) => if written {
                (self.switched(self.find(command.spec_output()).unwrap(), on), Some(on))
            } else {
                (self, None)
            },
            None => (self, None),
        }
    }
}

/// What `find_from` finds is the first output of the name.
pub proof fn lemma_find_from(view: OutputsView, idx: IoIdx, from: int)
    requires
        0 <= from,
    ensures
        match view.find_from(idx, from) {
            Some(at) => {
                &&& from <= at < view.table.len()
                &&& view.table[at].idx == idx
                &&& forall|k: int| from <= k < at ==> (#[trigger] view.table[k]).idx != idx
            },
            None => forall|k: int| from <= k < view.table.len() ==> (#[trigger] view.table[k]).idx != idx,
        },
    decreases view.table.len() - from,
{
    if from < view.table.len() && view.table[from].idx != idx {
        lemma_find_from(view, idx, from + 1);
    }
}

/// An output that was switched is what was asked of it, every other output
/// is as before, and the table is untouched.
pub proof fn lemma_switched(view: OutputsView, idx: IoIdx, on: bool, other: IoIdx)
    requires
        view.wf(),
        view.find(idx) is Some,
    ensures
        ({
            let after = view.switched(view.find(idx).unwrap(), on);
            &&& after.wf()
            &&& after.table == view.table
            &&& after.get(idx) == Some(on)
            &&& other != idx ==> after.get(other) == view.get(other)
        }),
{
    let at = view.find(idx).unwrap();
    let after = view.switched(at, on);
    lemma_find_from(view, idx, 0);
    assert(view.placed(view.table[at]));
    lemma_same_table_finds(view, after, idx, 0);
    lemma_same_table_finds(view, after, other, 0);
    lemma_find_from(view, other, 0);
    assert forall|k: int| 0 <= k < after.table.len() implies after.placed(#[trigger] after.table[k]) by {
        assert(view.placed(view.table[k]));
    }
}

proof fn lemma_same_table_finds(a: OutputsView, b: OutputsView, idx: IoIdx, from: int)
    requires
        a.table == b.table,
        0 <= from,
    ensures
        a.find_from(idx, from) == b.find_from(idx, from),
    decreases a.table.len() - from,
{
    if from < a.table.len() && a.table[from].idx != idx {
        lemma_same_table_finds(a, b, idx, from + 1);
    }
}

/// The list of all outputs holds every output of the table once, at its
/// place, with what was asked of it.
pub proof fn lemma_get_all(view: OutputsView, at: int)
    requires
        view.wf(),
        0 <= at < view.table.len(),
    ensures
        view.get_all().len() == view.table.len(),
        view.get_all()[at] == (view.table[at].idx, view.cached[at]),
        view.find(view.table[at].idx) == Some(at) ==> view.get(view.table[at].idx) == Some(
            view.get_all()[at].1,
        ),
{
}

/// The output driver.
pub struct IndexedOutputs {
    table: Vec<Output>,
    cached: Vec<bool>,
    words: Vec<u16>,
}

impl View for IndexedOutputs {
    type V = OutputsView;

    closed spec fn view(&self) -> OutputsView {
        OutputsView { table: self.table@, cached: self.cached@, words: self.words@ }
    }
}

impl IndexedOutputs {
    #[verifier::type_invariant]
    spec fn well_formed(self) -> bool {
        self@.wf()
    }

    /// A driver of a table of outputs on a number of expanders. Nothing has
    /// been asked of any output, and every expander holds all bits high,
    /// as after its reset. `None` for a table that names a bit which no
    /// expander has.
    pub fn new(table: Vec<Output>, expanders: u8) -> (driver: Option<Self>)
        ensures
            driver is Some <==> (OutputsView {
                table: table@,
                cached: Seq::new(table@.len(), |at: int| false),
                words: Seq::new(expanders as nat, |no: int| 0xffffu16),
            }).wf(),
            driver is Some ==> driver.unwrap()@ == (OutputsView {
                table: table@,
                cached: Seq::new(table@.len(), |at: int| false),
                words: Seq::new(expanders as nat, |no: int| 0xffffu16),
            }),
    {
        let ghost model = OutputsView {
            table: table@,
            cached: Seq::new(table@.len(), |at: int| false),
            words: Seq::new(expanders as nat, |no: int| 0xffffu16),
        };
        let mut cached: Vec<bool> = Vec::new();
        let mut at: usize = 0;
        while at < table.len()
            invariant
                at <= table@.len(),
                cached@ == Seq::new(at as nat, |k: int| false),
                forall|k: int| 0 <= k < at ==> model.placed(#[trigger] table@[k]),
                model.table == table@,
                model.words.len() == expanders,
            decreases table@.len() - at,
        {
            let fits = match table[at].place {
                Place::Expander(expander_no, bit) => expander_no < expanders && bit
                    < EXPANDER_BITS,
                Place::Native(_) => true,
            };
            if !fits {
                assert(!model.placed(model.table[at as int]));
                return None;
            }
            cached.push(false);
            assert(cached@ =~= Seq::new((at + 1) as nat, |k: int| false));
            at += 1;
        }
        let mut words: Vec<u16> = Vec::new();
        let mut no: u8 = 0;
        while no < expanders
            invariant
                no <= expanders,
                words@ == Seq::new(no as nat, |k: int| 0xffffu16),
            decreases expanders - no,
        {
            words.push(0xffff);
            assert(words@ =~= Seq::new((no + 1) as nat, |k: int| 0xffffu16));
            no += 1;
        }
        let driver = IndexedOutputs { table, cached, words };
        assert(driver@ == model);
        Some(driver)
    }

    /// Finds an output in the table.
    pub fn find_id(&self, io_idx: IoIdx) -> (at: Option<usize>)
        ensures
            match at {
                Some(at) => self@.find(io_idx) == Some(at as int) && at < self@.table.len(),
                None => self@.find(io_idx) is None,
            },
    {
        let mut at: usize = 0;
        while at < self.table.len()
            invariant
                at <= self@.table.len(),
                self@.find(io_idx) == self@.find_from(io_idx, at as int),
            decreases self@.table.len() - at,
        {
            if self.table[at].idx == io_idx {
                return Some(at);
            }
            at += 1;
        }
        None
    }

    /// What was asked of an output last.
    pub fn get(&self, idx: IoIdx) -> (on: Option<bool>)
        ensures
            on == self@.get(idx),
            self@.wf(),
    {
        proof {
            use_type_invariant(self);
        }
        match self.find_id(idx) {
            Some(at) => Some(self.cached[at]),
            None => None,
        }
    }

    /// All outputs with what was asked of each, in the order of the table.
    pub fn get_all(&self) -> (all: Vec<(IoIdx, bool)>)
        ensures
            all@ == self@.get_all(),
            self@.wf(),
    {
        proof {
            use_type_invariant(self);
        }
        let mut all: Vec<(IoIdx, bool)> = Vec::new();
        let mut at: usize = 0;
        while at < self.table.len()
            invariant
                self@.wf(),
                at <= self@.table.len(),
                all@ == self@.get_all().subrange(0, at as int),
            decreases self@.table.len() - at,
        {
            all.push((self.table[at].idx, self.cached[at]));
            assert(all@ =~= self@.get_all().subrange(0, at + 1));
            at += 1;
        }
        assert(all@ =~= self@.get_all());
        all
    }

    fn write_for(&self, at: usize, on: bool) -> (write: PinWrite)
        requires
            at < self@.table.len(),
        ensures
            write == self@.write_for(at as int, on),
    {
        proof {
            use_type_invariant(self);
        }
        let output = self.table[at];
        assert(self@.placed(self@.table[at as int]));
        let high = output.pin_type.level(on);
        match output.place {
            Place::Expander(expander_no, bit) => PinWrite::Expander {
                expander_no,
                word: with_bit(self.words[expander_no as usize], bit, high),
            },
            Place::Native(pin_no) => PinWrite::Native { pin_no, high },
        }
    }

    fn switch(&mut self, at: usize, on: bool)
        requires
            at < old(self)@.table.len(),
        ensures
            final(self)@ == old(self)@.switched(at as int, on),
    {
        proof {
            use_type_invariant(&*self);
        }
        let write = self.write_for(at, on);
        assert(self@.placed(self@.table[at as int]));
        self.cached[at] = on;
        match write {
            PinWrite::Expander { expander_no, word } => {
                self.words[expander_no as usize] = word;
            },
            PinWrite::Native { .. } => {},
        }
        proof {
            assert forall|k: int| 0 <= k < self@.table.len() implies self@.placed(
                #[trigger] self@.table[k],
            ) by {
                assert(old(self)@.placed(old(self)@.table[k]));
            }
        }
    }

    fn wanted(&self, command: IOCommand) -> (on: Option<(usize, bool)>)
        ensures
            match on {
                Some((at, on)) => self@.wanted(command) == Some(on) && self@.find(
                    command.spec_output(),
                ) == Some(at as int) && at < self@.table.len(),
                None => self@.wanted(command) is None,
            },
    {
        proof {
            use_type_invariant(self);
        }
        match self.find_id(command.output()) {
            Some(at) => {
                let on = match command {
                    IOCommand::ToggleOutput(_) => !self.cached[at],
                    IOCommand::ActivateOutput(_) => true,
                    IOCommand::DeactivateOutput(_) => false,
                };
                Some((at, on))
            },
            None => None,
        }
    }

    /// What to write to carry out a command. Fails for an output that the
    /// table does not hold.
    pub fn request(&self, command: IOCommand) -> (write: Result<PinWrite, ()>)
        ensures
            write is Ok <==> self@.request(command) is Some,
            write is Ok ==> Some(write.unwrap()) == self@.request(command),
    {
        match self.wanted(command) {
            Some((at, on)) => Ok(self.write_for(at, on)),
            None => Err(()),
        }
    }

    /// Takes the outcome of the write for a command. After a write that
    /// worked the output is what the command asked for, and the change is
    /// to be told to the bus. After one that failed, or for an output that
    /// the table does not hold, nothing has changed and the failure is to
    /// be counted.
    pub fn apply(&mut self, command: IOCommand, written: bool) -> (res: Result<Message, Problem>)
        ensures
            final(self)@ == old(self)@.applied(command, written).0,
            match old(self)@.applied(command, written).1 {
                Some(on) => res == Ok::<Message, Problem>(
                    Message::OutputChanged {
                        output: command.spec_output(),
                        state: if on {
                            OutputState::On
                        } else {
                            OutputState::Off
                        },
                    },
                ),
                None => res == Err::<Message, Problem>(Problem::ExpanderOutputError),
            },
    {
        proof {
            use_type_invariant(&*self);
        }
        match self.wanted(command) {
            Some((at, on)) => {
                if written {
                    self.switch(at, on);
                    Ok(
                        Message::OutputChanged {
                            output: command.output(),
                            state: if on {
                                OutputState::On
                            } else {
                                OutputState::Off
                            },
                        },
                    )
                } else {
                    Err(Problem::ExpanderOutputError)
                }
            },
            None => Err(Problem::ExpanderOutputError),
        }
    }

    /// Takes the outcome of the write that switches an output on or off.
    /// Succeeds where the table holds the output and the write worked: the
    /// output then is what was asked. Else nothing has changed.
    pub fn set(&mut self, io_idx: IoIdx, high: bool, written: bool) -> (res: Result<(), ()>)
        ensures
            res is Ok <==> old(self)@.find(io_idx) is Some && written,
            res is Ok ==> final(self)@ == old(self)@.switched(
                old(self)@.find(io_idx).unwrap(),
                high,
            ) && final(self)@.get(io_idx) == Some(high),
            res is Err ==> final(self)@ == old(self)@,
    {
        proof {
            use_type_invariant(&*self);
        }
        match self.find_id(io_idx) {
            Some(at) => {
                if written {
                    proof {
                        lemma_switched(self@, io_idx, high, io_idx);
                    }
                    self.switch(at, high);
                    Ok(())
                } else {
                    Err(())
                }
            },
            None => Err(()),
        }
    }

    /// Takes the outcome of the write that switches an output on.
    pub fn set_high(&mut self, idx: IoIdx, written: bool) -> (res: Result<(), ()>)
        ensures
            res is Ok <==> old(self)@.find(idx) is Some && written,
            res is Ok ==> final(self)@ == old(self)@.switched(old(self)@.find(idx).unwrap(), true)
                && final(self)@.get(idx) == Some(true),
            res is Err ==> final(self)@ == old(self)@,
    {
        self.set(idx, true, written)
    }

    /// Takes the outcome of the write that switches an output off.
    pub fn set_low(&mut self, idx: IoIdx, written: bool) -> (res: Result<(), ()>)
        ensures
            res is Ok <==> old(self)@.find(idx) is Some && written,
            res is Ok ==> final(self)@ == old(self)@.switched(old(self)@.find(idx).unwrap(), false)
                && final(self)@.get(idx) == Some(false),
            res is Err ==> final(self)@ == old(self)@,
    {
        self.set(idx, false, written)
    }

    /// Takes the outcome of the write that inverts an output, and returns
    /// what the output is now.
    pub fn toggle(&mut self, io_idx: IoIdx, written: bool) -> (res: Result<bool, ()>)
        ensures
            res is Ok <==> old(self)@.find(io_idx) is Some && written,
            res is Ok ==> res.unwrap() == !old(self)@.get(io_idx).unwrap() && final(self)@ == old(
                self,
            )@.switched(old(self)@.find(io_idx).unwrap(), res.unwrap()) && final(self)@.get(io_idx)
                == Some(res.unwrap()),
            res is Err ==> final(self)@ == old(self)@,
    {
        proof {
            use_type_invariant(&*self);
        }
        match self.find_id(io_idx) {
            Some(at) => {
                if written {
                    let on = !self.cached[at];
                    proof {
                        lemma_switched(self@, io_idx, on, io_idx);
                    }
                    self.switch(at, on);
                    Ok(on)
                } else {
                    Err(())
                }
            },
            None => Err(()),
        }
    }
}

} // verus!
