//! Input scanner of one 16-bit port expander.
//!
//! The scanner polls the expander on a fixed cadence and debounces every
//! line with a counter of consecutive active readings. It does not touch the
//! bus itself: the caller performs the request that [`ExpanderInputs::next_request`]
//! names and hands the outcome back.

use vstd::prelude::*;
use crate::io::events::{IoIdx, SwitchEvent, SwitchState};

verus! {

/// Time between two polls of an expander, in milliseconds.
pub const LOOP_WAIT_MS: u32 = 30;

/// Number of consecutive active readings after which a line counts as pressed.
pub const MIN_TIME: u16 = 2;

/// Number of consecutive errors that a required expander may have.
pub const MAX_ERRORS: u16 = 60;

/// Time to wait after a failed configuration, in milliseconds.
pub const RECONFIGURE_WAIT_MS: u32 = 1000;

/// Word that releases all the open-drain lines, so that they can be read.
pub const RELEASE_ALL: u16 = 0xffff;

/// Number of lines of an expander.
pub const LINES: usize = 16;

/// Whether line `pos` of a reading is active. The lines are active-low.
pub open spec fn line_active(bits: u16, pos: u16) -> bool {
    bits & (1u16 << pos) == 0
}

/// Counter of a line after one more reading.
pub open spec fn line_count(count: u16, active: bool) -> u16 {
    if !active {
        0
    } else if count == u16::MAX {
        count
    } else {
        (count + 1) as u16
    }
}

/// Time that a counter stands for, in milliseconds.
pub open spec fn held_ms(count: u16) -> u32 {
    (LOOP_WAIT_MS * count) as u32
}

/// What one more reading of a line makes known of it.
pub open spec fn line_event(count: u16, active: bool) -> Option<SwitchState> {
    let next = line_count(count, active);
    if active {
        if next == MIN_TIME {
            Some(SwitchState::Activated)
        } else if next > MIN_TIME {
            Some(SwitchState::Active(held_ms(next)))
        } else {
            None
        }
    } else if count >= MIN_TIME {
        Some(SwitchState::Deactivated(held_ms(count)))
    } else {
        None
    }
}

/// Events of the lines below `upto`, in the order of the lines.
pub open spec fn scan_events(counts: Seq<u16>, indices: Seq<IoIdx>, bits: u16, upto: int) -> Seq<
    SwitchEvent,
>
    decreases upto,
{
    if upto <= 0 {
        Seq::empty()
    } else {
        let pos = upto - 1;
        let before = scan_events(counts, indices, bits, pos);
        match line_event(counts[pos], line_active(bits, pos as u16)) {
            Some(state) => before.push(SwitchEvent { switch_id: indices[pos], state }),
            None => before,
        }
    }
}

/// Counters of all the lines after one more reading.
pub open spec fn scan_counts(counts: Seq<u16>, bits: u16) -> Seq<u16> {
    Seq::new(counts.len(), |pos: int| line_count(counts[pos], line_active(bits, pos as u16)))
}

/// What the scanner wants done next.
#[derive(Clone, Copy, Debug, PartialEq, Eq, Structural)]
pub enum ScanRequest {
    /// Write this word to the expander.
    Configure(u16),
    /// Wait this many milliseconds, then read the 16 lines at once.
    Poll(u32),
}

/// What came of a request.
pub struct ScanStep {
    /// Events to pass on, in the order of the lines.
    pub events: Vec<SwitchEvent>,
    /// An error of a required expander, to be counted.
    pub problem: bool,
    /// A required expander exceeded its errors: the node cannot go on.
    pub dead: bool,
    /// Time to wait before the next request, in milliseconds.
    pub delay_ms: u32,
}

/// Scanner state of one expander.
pub struct ExpanderInputs {
    /// Names of the 16 lines.
    pub io_indices: [IoIdx; 16],
    /// Address of the expander, to tell it from the others.
    pub id: u8,
    /// Consecutive failed requests.
    pub errors: u16,
    /// Whether the last read was answered.
    pub expander_online: bool,
    /// The last reading, 0 after a failed read.
    pub last_input: u16,
    /// Whether the node needs this expander.
    pub required: bool,
    /// Whether the lines were released for reading.
    pub initialized: bool,
    /// Consecutive active readings of each line.
    pub state: [u16; 16],
}

impl ExpanderInputs {
    /// Errors after one more failed request.
    pub open spec fn spec_failed_errors(self) -> u16 {
        if self.errors == u16::MAX {
            self.errors
        } else {
            (self.errors + 1) as u16
        }
    }

    /// The scanner after a failed request.
    pub open spec fn spec_failed(self) -> ExpanderInputs {
        ExpanderInputs {
            errors: self.spec_failed_errors(),
            expander_online: false,
            last_input: 0,
            ..self
        }
    }

    /// Whether a failed request is one too many.
    pub open spec fn spec_dies(self) -> bool {
        self.required && self.spec_failed_errors() > MAX_ERRORS
    }

    pub fn new(id: u8, io_indices: [IoIdx; 16], required: bool) -> (scanner: Self)
        ensures
            scanner.io_indices == io_indices,
            scanner.id == id,
            scanner.required == required,
            scanner.errors == 0,
            !scanner.expander_online,
            scanner.last_input == 0,
            !scanner.initialized,
            forall|pos: int| 0 <= pos < 16 ==> scanner.state[pos] == 0,
    {
        Self {
            io_indices,
            id,
            errors: 0,
            expander_online: false,
            last_input: 0,
            required,
            initialized: false,
            state: [0u16;16],
        }
    }

    pub fn get_indices(&self) -> (indices: &[IoIdx; 16])
        ensures
            *indices == self.io_indices,
    {
        &self.io_indices
    }

    pub fn get_id(&self) -> (id: u8)
        ensures
            id == self.id,
    {
        self.id
    }

    /// The last reading, line by line: the name of the line and whether its
    /// bit was set. `None` while the expander does not answer.
    pub fn get_inputs(&self) -> (inputs: Option<[(IoIdx, bool); 16]>)
        ensures
            inputs is Some <==> self.expander_online,
            inputs is Some ==> forall|pos: int|
                0 <= pos < 16 ==> (#[trigger] inputs.unwrap()[pos]) == (
                    self.io_indices[pos],
                    !line_active(self.last_input, pos as u16),
                ),
    {
        if !self.expander_online {
            return None;
        }
        let mut data: [(IoIdx, bool); 16] = [(0u8, false);16];
        let mut pos: usize = 0;
        while pos < 16
            invariant
                pos <= 16,
                forall|k: int|
                    0 <= k < pos ==> (#[trigger] data[k]) == (
                        self.io_indices[k],
                        !line_active(self.last_input, k as u16),
                    ),
            decreases 16 - pos,
        {
            let mask: u16 = 1u16 << (pos as u16);
            data[pos] = (self.io_indices[pos], (self.last_input & mask) != 0);
            pos += 1;
        }
        Some(data)
    }

    /// The request to perform next.
    pub fn next_request(&self) -> (request: ScanRequest)
        ensures
            request == if self.initialized {
                ScanRequest::Poll(LOOP_WAIT_MS)
            } else {
                ScanRequest::Configure(RELEASE_ALL)
            },
    {
        if self.initialized {
            ScanRequest::Poll(LOOP_WAIT_MS)
        } else {
            ScanRequest::Configure(RELEASE_ALL)
        }
    }

    /// Takes the outcome of a `Configure` request.
    pub fn configured(&mut self, ok: bool) -> (step: ScanStep)
        ensures
            step.events@ == Seq::<SwitchEvent>::empty(),
            ok ==> *final(self) == (ExpanderInputs { initialized: true, ..*old(self) }),
            ok ==> !step.problem && !step.dead && step.delay_ms == 0,
            !ok ==> *final(self) == old(self).spec_failed(),
            !ok ==> step.problem == old(self).required,
            !ok ==> step.dead == old(self).spec_dies(),
            !ok ==> step.delay_ms == RECONFIGURE_WAIT_MS,
    {
        if ok {
            self.initialized = true;
            ScanStep { events: Vec::new(), problem: false, dead: false, delay_ms: 0 }
        } else {
            self.fail();
            ScanStep {
                events: Vec::new(),
                problem: self.required,
                dead: self.required && self.errors > MAX_ERRORS,
                delay_ms: RECONFIGURE_WAIT_MS,
            }
        }
    }

    /// Takes the outcome of a `Poll` request.
    ///
    /// A reading resets the errors and debounces the 16 lines; a failure
    /// counts as an error and leaves the lines as they were.
    pub fn scanned(&mut self, reading: Result<u16, ()>) -> (step: ScanStep)
        ensures
            step.delay_ms == 0,
            reading is Ok ==> {
                let bits = reading.unwrap();
                &&& step.events@ == scan_events(old(self).state@, old(self).io_indices@, bits, 16)
                &&& !step.problem
                &&& !step.dead
                &&& final(self).state@ == scan_counts(old(self).state@, bits)
                &&& *final(self) == (ExpanderInputs {
                    errors: 0,
                    expander_online: true,
                    last_input: bits,
                    state: final(self).state,
                    ..*old(self)
                })
            },
            reading is Err ==> {
                &&& step.events@ == Seq::<SwitchEvent>::empty()
                &&& *final(self) == old(self).spec_failed()
                &&& step.problem == old(self).required
                &&& step.dead == old(self).spec_dies()
            },
    {
        match reading {
            Ok(bits) => {
                self.errors = 0;
                self.expander_online = true;
                self.last_input = bits;
                let events = self.debounce(bits);
                ScanStep { events, problem: false, dead: false, delay_ms: 0 }
            },
            Err(_) => {
                self.fail();
                ScanStep {
                    events: Vec::new(),
                    problem: self.required,
                    dead: self.required && self.errors > MAX_ERRORS,
                    delay_ms: 0,
                }
            },
        }
    }

    fn fail(&mut self)
        ensures
            *final(self) == old(self).spec_failed(),
    {
        if self.errors != u16::MAX {
            self.errors = self.errors + 1;
        }
        self.expander_online = false;
        self.last_input = 0;
    }

    /// Moves the 16 counters by one reading.
    fn debounce(&mut self, bits: u16) -> (events: Vec<SwitchEvent>)
        ensures
            events@ == scan_events(old(self).state@, old(self).io_indices@, bits, 16),
            final(self).state@ == scan_counts(old(self).state@, bits),
            *final(self) == (ExpanderInputs { state: final(self).state, ..*old(self) }),
    {
        let mut events: Vec<SwitchEvent> = Vec::new();
        let mut pos: usize = 0;
        while pos < 16
            invariant
                pos <= 16,
                events@ == scan_events(old(self).state@, old(self).io_indices@, bits, pos as int),
                forall|k: int|
                    0 <= k < pos ==> (#[trigger] self.state[k]) == line_count(
                        old(self).state[k],
                        line_active(bits, k as u16),
                    ),
                forall|k: int| pos <= k < 16 ==> (#[trigger] self.state[k]) == old(self).state[k],
                *self == (ExpanderInputs { state: self.state, ..*old(self) }),
            decreases 16 - pos,
        {
            let mask: u16 = 1u16 << (pos as u16);
            let active = (bits & mask) == 0;
            let count = self.state[pos];
            if active {
                let next: u16 = if count == u16::MAX {
                    count
                } else {
                    count + 1
                };
                self.state[pos] = next;
                if next == MIN_TIME {
                    events.push(
                        SwitchEvent {
                            switch_id: self.io_indices[pos],
                            state: SwitchState::Activated,
                        },
                    );
                } else if next > MIN_TIME {
                    events.push(
                        SwitchEvent {
                            switch_id: self.io_indices[pos],
                            state: SwitchState::Active(LOOP_WAIT_MS * (next as u32)),
                        },
                    );
                }
            } else {
                if count >= MIN_TIME {
                    events.push(
                        SwitchEvent {
                            switch_id: self.io_indices[pos],
                            state: SwitchState::Deactivated(LOOP_WAIT_MS * (count as u32)),
                        },
                    );
                }
                self.state[pos] = 0;
            }
            pos += 1;
        }
        assert(self.state@ =~= scan_counts(old(self).state@, bits));
        events
    }
}

} // verus!
