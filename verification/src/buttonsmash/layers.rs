//! The stack of layers.
//!
//! Every entry holds the layer and the input that anchors it: the input
//! whose press entered the layer, or the virtual input for a layer that the
//! program entered. The top of the stack is the current layer.

use vstd::prelude::*;
use crate::buttonsmash::consts::{InIdx, LayerIdx, DEFAULT_LAYER, MAX_LAYER_STACK};

verus! {

/// The layer on top of a stack; the default layer where the stack is empty.
pub open spec fn current_layer(stack: Seq<(InIdx, LayerIdx)>) -> LayerIdx {
    if stack.len() == 0 {
        DEFAULT_LAYER
    } else {
        stack.last().1
    }
}

/// Whether the top of a stack is anchored by an input.
pub open spec fn anchored_by(stack: Seq<(InIdx, LayerIdx)>, input: InIdx) -> bool {
    stack.len() > 0 && stack.last().0 == input
}

/// The stack of layers, at most `MAX_LAYER_STACK` deep.
pub struct Layers {
    /// The entries stand in the first `depth` places, the top last.
    stack: [(InIdx, LayerIdx); 5],
    depth: usize,
}

impl View for Layers {
    type V = Seq<(InIdx, LayerIdx)>;

    closed spec fn view(&self) -> Seq<(InIdx, LayerIdx)> {
        self.stack@.subrange(0, self.depth as int)
    }
}

impl Layers {
    #[verifier::type_invariant]
    spec fn well_formed(self) -> bool {
        self.depth <= MAX_LAYER_STACK
    }

    pub fn new() -> (layers: Self)
        ensures
            layers@ == Seq::<(InIdx, LayerIdx)>::empty(),
    {
        let layers = Layers { stack: [(0u8, 0u8);5], depth: 0 };
        assert(layers@ =~= Seq::<(InIdx, LayerIdx)>::empty());
        layers
    }

    /// Number of layers on the stack.
    pub fn depth(&self) -> (depth: usize)
        ensures
            depth == self@.len(),
            depth <= MAX_LAYER_STACK,
    {
        proof {
            use_type_invariant(self);
        }
        self.depth
    }

    /// The current layer.
    pub fn current(&self) -> (layer: LayerIdx)
        ensures
            layer == current_layer(self@),
    {
        proof {
            use_type_invariant(self);
        }
        if self.depth == 0 {
            DEFAULT_LAYER
        } else {
            self.stack[self.depth - 1].1
        }
    }

    /// Back to the default layer.
    pub fn reset(&mut self)
        ensures
            final(self)@ == Seq::<(InIdx, LayerIdx)>::empty(),
    {
        proof {
            assert(self.stack@.subrange(0, 0) =~= Seq::<(InIdx, LayerIdx)>::empty());
        }
        self.depth = 0;
    }

    /// Enters a layer, anchored by an input. Fails, and changes nothing,
    /// where the stack is full.
    pub fn activate(&mut self, input: InIdx, layer: LayerIdx) -> (entered: bool)
        ensures
            entered <==> old(self)@.len() < MAX_LAYER_STACK,
            entered ==> final(self)@ == old(self)@.push((input, layer)),
            !entered ==> final(self)@ == old(self)@,
    {
        proof {
            use_type_invariant(&*self);
        }
        if self.depth < MAX_LAYER_STACK {
            proof {
                assert(self.stack@.update(self.depth as int, (input, layer)).subrange(
                    0,
                    self.depth + 1,
                ) =~= self@.push((input, layer)));
            }
            self.stack[self.depth] = (input, layer);
            self.depth = self.depth + 1;
            true
        } else {
            false
        }
    }

    /// Leaves the current layer if this input anchors it, and says whether
    /// it did.
    pub fn maybe_deactivate(&mut self, input: InIdx) -> (left: bool)
        ensures
            left <==> anchored_by(old(self)@, input),
            left ==> final(self)@ == old(self)@.drop_last(),
            !left ==> final(self)@ == old(self)@,
    {
        proof {
            use_type_invariant(&*self);
        }
        if self.depth > 0 && self.stack[self.depth - 1].0 == input {
            proof {
                assert(self.stack@.subrange(0, self.depth - 1) =~= self@.drop_last());
            }
            self.depth = self.depth - 1;
            true
        } else {
            false
        }
    }
}

} // verus!
