//! Diagnostics: counters of problems and the pattern of the status light.

use vstd::prelude::*;

verus! {

/// A counter of events. It wraps around rather than stop the node.
#[derive(Clone, Copy, Debug, PartialEq, Eq, Structural)]
pub struct Counter {
    pub value: u32,
}

impl Counter {
    pub fn new() -> (counter: Self)
        ensures
            counter.value == 0,
    {
        Counter { value: 0 }
    }

    /// Counts one event and returns the count before it.
    pub fn inc(&mut self) -> (before: u32)
        ensures
            before == old(self).value,
            final(self).value == if old(self).value == u32::MAX {
                0
            } else {
                old(self).value + 1
            },
    {
        let before = self.value;
        self.value = if before == u32::MAX {
            0
        } else {
            before + 1
        };
        before
    }

    pub fn get(&self) -> (value: u32)
        ensures
            value == self.value,
    {
        self.value
    }
}

impl Default for Counter {
    fn default() -> (counter: Self)
        ensures
            counter.value == 0,
    {
        Counter { value: 0 }
    }
}

/// A problem that the node counts.
#[derive(Clone, Copy, Debug, PartialEq, Eq, Structural)]
pub enum Problem {
    /// The queue of input events was full.
    InputQueueFull,
    /// The queue of output commands was full.
    OutputQueueFull,
    /// An expander of inputs did not answer.
    ExpanderInputError,
    /// An output could not be driven.
    ExpanderOutputError,
    /// The bus handed over a broken frame.
    CanFrameError,
    /// A frame was given up because the transmit queue was full.
    CanDrop,
}

/// The counters of one node.
#[derive(Clone, Copy, Debug, PartialEq, Eq, Structural)]
pub struct Counters {
    pub input_queue_full: Counter,
    pub output_queue_full: Counter,
    pub expander_input_error: Counter,
    pub expander_output_error: Counter,
    pub can_frame_error: Counter,
    pub can_drop: Counter,
}

impl Counters {
    /// Whether any problem was ever counted.
    pub open spec fn spec_has_problem(self) -> bool {
        ||| self.input_queue_full.value > 0
        ||| self.output_queue_full.value > 0
        ||| self.expander_input_error.value > 0
        ||| self.expander_output_error.value > 0
        ||| self.can_frame_error.value > 0
        ||| self.can_drop.value > 0
    }

    /// The counter of a problem.
    pub open spec fn spec_count(self, problem: Problem) -> u32 {
        match problem {
            Problem::InputQueueFull => self.input_queue_full.value,
            Problem::OutputQueueFull => self.output_queue_full.value,
            Problem::ExpanderInputError => self.expander_input_error.value,
            Problem::ExpanderOutputError => self.expander_output_error.value,
            Problem::CanFrameError => self.can_frame_error.value,
            Problem::CanDrop => self.can_drop.value,
        }
    }

    pub fn new() -> (counters: Self)
        ensures
            forall|problem: Problem| counters.spec_count(problem) == 0,
            !counters.spec_has_problem(),
    {
        Counters {
            input_queue_full: Counter::new(),
            output_queue_full: Counter::new(),
            expander_input_error: Counter::new(),
            expander_output_error: Counter::new(),
            can_frame_error: Counter::new(),
            can_drop: Counter::new(),
        }
    }

    /// Counts a problem. The status light is to warn of it: the pattern to
    /// show is returned.
    pub fn record(&mut self, problem: Problem) -> (blink: Blink)
        ensures
            blink == Blink::Warning,
            final(self).spec_count(problem) == if old(self).spec_count(problem) == u32::MAX {
                0
            } else {
                old(self).spec_count(problem) + 1
            },
            forall|other: Problem|
                other != problem ==> final(self).spec_count(other) == old(self).spec_count(other),
    {
        match problem {
            Problem::InputQueueFull => {
                self.input_queue_full.inc();
            },
            Problem::OutputQueueFull => {
                self.output_queue_full.inc();
            },
            Problem::ExpanderInputError => {
                self.expander_input_error.inc();
            },
            Problem::ExpanderOutputError => {
                self.expander_output_error.inc();
            },
            Problem::CanFrameError => {
                self.can_frame_error.inc();
            },
            Problem::CanDrop => {
                self.can_drop.inc();
            },
        }
        Blink::Warning
    }

    /// Has any problem been counted?
    pub fn has_problem(&self) -> (problem: bool)
        ensures
            problem == self.spec_has_problem(),
    {
        self.input_queue_full.get() > 0 || self.output_queue_full.get() > 0
            || self.expander_input_error.get() > 0 || self.expander_output_error.get() > 0
            || self.can_frame_error.get() > 0 || self.can_drop.get() > 0
    }
}

/// What the status light tells.
#[derive(Clone, Copy, Debug, PartialEq, Eq, Structural)]
pub enum Blink {
    /// The node just started.
    Init,
    /// Nothing happens and all is well.
    Idle,
    /// The node acts on something.
    Active,
    /// A problem was counted a moment ago.
    Warning,
    /// Nothing happens, but a problem was counted at some time.
    Attention,
}

/// A pattern of the light: on and off times in milliseconds, and how often
/// to repeat them; 0 repeats stand for "until told otherwise".
#[derive(Clone, Copy, Debug, PartialEq, Eq, Structural)]
pub struct Pattern {
    pub on_ms: u32,
    pub off_ms: u32,
    pub count: u32,
}

impl Blink {
    /// The pattern that shows a state.
    pub open spec fn spec_pattern(self) -> Pattern {
        match self {
            Blink::Active => Pattern { on_ms: 10, off_ms: 50, count: 8 },
            Blink::Warning => Pattern { on_ms: 100, off_ms: 100, count: 10 },
            Blink::Init => Pattern { on_ms: 200, off_ms: 200, count: 3 },
            Blink::Idle => Pattern { on_ms: 10, off_ms: 3000, count: 0 },
            Blink::Attention => Pattern { on_ms: 300, off_ms: 3000, count: 0 },
        }
    }

    pub fn to_time(&self) -> (pattern: Pattern)
        ensures
            pattern == self.spec_pattern(),
    {
        match self {
            Blink::Active => Pattern { on_ms: 10, off_ms: 50, count: 8 },
            Blink::Warning => Pattern { on_ms: 100, off_ms: 100, count: 10 },
            Blink::Init => Pattern { on_ms: 200, off_ms: 200, count: 3 },
            Blink::Idle => Pattern { on_ms: 10, off_ms: 3000, count: 0 },
            Blink::Attention => Pattern { on_ms: 300, off_ms: 3000, count: 0 },
        }
    }
}

/// The status light: the pattern that it shows now.
#[derive(Clone, Copy, Debug, PartialEq, Eq, Structural)]
pub struct Status {
    pub pattern: Pattern,
}

impl Status {
    /// The pattern after one more blink: once the repeats are used up, the
    /// light falls back to `Attention` if a problem was ever counted, and to
    /// `Idle` if not.
    pub open spec fn spec_blinked(self, has_problem: bool) -> Pattern {
        if self.pattern.count == 0 {
            if has_problem {
                Blink::Attention.spec_pattern()
            } else {
                Blink::Idle.spec_pattern()
            }
        } else {
            Pattern { count: (self.pattern.count - 1) as u32, ..self.pattern }
        }
    }

    pub fn new() -> (status: Self)
        ensures
            status.pattern == Blink::Init.spec_pattern(),
    {
        Status { pattern: Blink::Init.to_time() }
    }

    /// Shows a state from now on.
    pub fn set_state(&mut self, blink: Blink)
        ensures
            final(self).pattern == blink.spec_pattern(),
    {
        self.pattern = blink.to_time();
    }

    /// Takes note that the light went on and off once more.
    pub fn blinked(&mut self, counters: &Counters)
        ensures
            final(self).pattern == old(self).spec_blinked(counters.spec_has_problem()),
    {
        if self.pattern.count == 0 {
            if counters.has_problem() {
                self.pattern = Blink::Attention.to_time();
            } else {
                self.pattern = Blink::Idle.to_time();
            }
        } else {
            self.pattern.count = self.pattern.count - 1;
        }
    }
}

} // verus!
