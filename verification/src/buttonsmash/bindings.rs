//! The table of bindings: what to do on a trigger of an input on a layer.
//!
//! The table holds at most one binding for each input, layer and trigger.
//! Its model is the sequence of its bindings, in the order in which their
//! keys were first bound.

use vstd::prelude::*;
use crate::buttonsmash::consts::{Command, InIdx, LayerIdx, ProcIdx};
use crate::io::events::Trigger;

verus! {

/// What a binding does.
#[derive(Clone, Copy, Debug, PartialEq, Eq, Structural)]
pub enum Action {
    /// Nothing.
    Noop,
    /// It issues one command.
    Single(Command),
    /// It runs a procedure.
    Proc(ProcIdx),
}

/// One binding: on `layer`, `trigger` on input `idx` does `action`.
#[derive(Clone, Copy, Debug, PartialEq, Eq, Structural)]
pub struct Binding {
    pub idx: InIdx,
    pub trigger: Trigger,
    pub layer: LayerIdx,
    pub action: Action,
}

impl Binding {
    /// Whether a binding is for an input, on a layer if one is given, and
    /// for a trigger if one is given.
    pub open spec fn matches(self, idx: InIdx, layer: Option<LayerIdx>, trigger: Option<Trigger>) -> bool {
        &&& self.idx == idx
        &&& (layer is None || layer == Some(self.layer))
        &&& (trigger is None || trigger == Some(self.trigger))
    }

    /// Whether two bindings are for the same input, layer and trigger.
    pub open spec fn same_key(self, other: Binding) -> bool {
        self.idx == other.idx && self.layer == other.layer && self.trigger == other.trigger
    }
}

/// No two bindings of a table have the same key.
pub open spec fn unique_keys(items: Seq<Binding>) -> bool {
    forall|i: int, j: int|
        0 <= i < j < items.len() ==> !(#[trigger] items[i]).same_key(#[trigger] items[j])
}

/// Place of the first binding at or after `from` that matches.
pub open spec fn find_from(
    items: Seq<Binding>,
    idx: InIdx,
    layer: Option<LayerIdx>,
    trigger: Option<Trigger>,
    from: int,
) -> Option<int>
    decreases items.len() - from,
{
    if from < 0 || from >= items.len() {
        None
    } else if items[from].matches(idx, layer, trigger) {
        Some(from)
    } else {
        find_from(items, idx, layer, trigger, from + 1)
    }
}

/// The first binding that matches, if any.
pub open spec fn first_match(
    items: Seq<Binding>,
    idx: InIdx,
    layer: Option<LayerIdx>,
    trigger: Option<Trigger>,
) -> Option<Binding> {
    match find_from(items, idx, layer, trigger, 0) {
        Some(at) => Some(items[at]),
        None => None,
    }
}

/// The binding of an input, a layer and a trigger, if there is one.
pub open spec fn lookup(items: Seq<Binding>, idx: InIdx, layer: LayerIdx, trigger: Trigger) -> Option<
    Binding,
> {
    first_match(items, idx, Some(layer), Some(trigger))
}

/// The table after a binding was added to it: a binding with the same key is
/// replaced where it stands, any other is added at the end. `None` where
/// the table has no room for it.
pub open spec fn bound(items: Seq<Binding>, binding: Binding, room: nat) -> Option<Seq<Binding>> {
    match find_from(items, binding.idx, Some(binding.layer), Some(binding.trigger), 0) {
        Some(at) => Some(items.update(at, binding)),
        None => if items.len() < room {
            Some(items.push(binding))
        } else {
            None
        },
    }
}

/// What `find_from` finds is the first match, and it finds one if there is any.
pub proof fn lemma_find_from(
    items: Seq<Binding>,
    idx: InIdx,
    layer: Option<LayerIdx>,
    trigger: Option<Trigger>,
    from: int,
)
    requires
        0 <= from,
    ensures
        match find_from(items, idx, layer, trigger, from) {
            Some(at) => {
                &&& from <= at < items.len()
                &&& items[at].matches(idx, layer, trigger)
                &&& forall|k: int| from <= k < at ==> !(#[trigger] items[k]).matches(idx, layer, trigger)
            },
            None => forall|k: int|
                from <= k < items.len() ==> !(#[trigger] items[k]).matches(idx, layer, trigger),
        },
    decreases items.len() - from,
{
    if from < items.len() && !items[from].matches(idx, layer, trigger) {
        lemma_find_from(items, idx, layer, trigger, from + 1);
    }
}

/// Every binding of a table is the one that a lookup of its key finds.
pub proof fn lemma_lookup_finds_bound(items: Seq<Binding>, at: int)
    requires
        unique_keys(items),
        0 <= at < items.len(),
    ensures
        lookup(items, items[at].idx, items[at].layer, items[at].trigger) == Some(items[at]),
{
    let b = items[at];
    lemma_find_from(items, b.idx, Some(b.layer), Some(b.trigger), 0);
    let found = find_from(items, b.idx, Some(b.layer), Some(b.trigger), 0);
    assert(found is Some);
    let f = found.unwrap();
    if f != at {
        assert(items[f].same_key(items[at]));
        assert(items[at].same_key(items[f]));
    }
}

/// A lookup finds nothing in an empty table.
pub proof fn lemma_lookup_empty(idx: InIdx, layer: LayerIdx, trigger: Trigger)
    ensures
        lookup(Seq::<Binding>::empty(), idx, layer, trigger) is None,
{
}

/// Binding replaces: afterwards a lookup of the key finds the new binding,
/// every other lookup finds what it found before, and the table still holds
/// each key once and has grown by at most one binding.
pub proof fn lemma_bound(
    items: Seq<Binding>,
    binding: Binding,
    room: nat,
    idx: InIdx,
    layer: LayerIdx,
    trigger: Trigger,
)
    requires
        unique_keys(items),
        bound(items, binding, room) is Some,
    ensures
        ({
            let after = bound(items, binding, room).unwrap();
            &&& unique_keys(after)
            &&& lookup(after, binding.idx, binding.layer, binding.trigger) == Some(binding)
            &&& (idx != binding.idx || layer != binding.layer || trigger != binding.trigger)
                ==> lookup(after, idx, layer, trigger) == lookup(items, idx, layer, trigger)
            &&& items.len() <= after.len() <= items.len() + 1
            &&& items.len() <= room ==> after.len() <= room
        }),
{
    let after = bound(items, binding, room).unwrap();
    let key_at = find_from(items, binding.idx, Some(binding.layer), Some(binding.trigger), 0);
    lemma_find_from(items, binding.idx, Some(binding.layer), Some(binding.trigger), 0);
    assert(unique_keys(after)) by {
        assert forall|i: int, j: int| 0 <= i < j < after.len() implies !(#[trigger] after[i]).same_key(
            #[trigger] after[j],
        ) by {
            match key_at {
                Some(at) => {
                    if i == at {
                        assert(!items[at].same_key(items[j]));
                    } else if j == at {
                        assert(!items[i].same_key(items[at]));
                    } else {
                        assert(!items[i].same_key(items[j]));
                    }
                },
                None => {
                    if j == items.len() {
                        assert(!items[i].matches(
                            binding.idx,
                            Some(binding.layer),
                            Some(binding.trigger),
                        ));
                    } else {
                        assert(!items[i].same_key(items[j]));
                    }
                },
            }
        }
    }
    let own = if key_at is Some {
        key_at.unwrap()
    } else {
        items.len() as int
    };
    assert(after[own] == binding);
    lemma_lookup_finds_bound(after, own);
    if idx != binding.idx || layer != binding.layer || trigger != binding.trigger {
        lemma_find_from(items, idx, Some(layer), Some(trigger), 0);
        lemma_find_from(after, idx, Some(layer), Some(trigger), 0);
        let before = find_from(items, idx, Some(layer), Some(trigger), 0);
        let now = find_from(after, idx, Some(layer), Some(trigger), 0);
        assert forall|k: int| 0 <= k < items.len() implies (#[trigger] after[k]).matches(
            idx,
            Some(layer),
            Some(trigger),
        ) == items[k].matches(idx, Some(layer), Some(trigger)) by {
            if k == own {
                assert(items[k].same_key(binding));
            }
        }
        match before {
            Some(b) => {
                assert(after[b].matches(idx, Some(layer), Some(trigger)));
                assert(now is Some);
                let n = now.unwrap();
                if n < b {
                    assert(items[n].matches(idx, Some(layer), Some(trigger)));
                }
                assert(n == b);
                assert(b != own);
            },
            None => {
                if now is Some {
                    let n = now.unwrap();
                    if n < items.len() {
                        assert(items[n].matches(idx, Some(layer), Some(trigger)));
                    }
                }
            },
        }
    }
}

/// The table of bindings, with room for `N` of them.
pub struct BindingList<const N: usize> {
    /// The bindings stand in the first `len` places.
    items: [Binding; N],
    len: usize,
}

impl<const N: usize> View for BindingList<N> {
    type V = Seq<Binding>;

    closed spec fn view(&self) -> Seq<Binding> {
        self.items@.subrange(0, self.len as int)
    }
}

impl<const N: usize> BindingList<N> {
    #[verifier::type_invariant]
    spec fn well_formed(self) -> bool {
        self.len <= N && unique_keys(self.items@.subrange(0, self.len as int))
    }

    pub fn new() -> (list: Self)
        ensures
            list@ == Seq::<Binding>::empty(),
    {
        let unused = Binding {
            idx: 0,
            trigger: Trigger::ShortClick,
            layer: 0,
            action: Action::Noop,
        };
        let list = BindingList { items: [unused;N], len: 0 };
        assert(list@ =~= Seq::<Binding>::empty());
        list
    }

    /// Number of bindings in the table.
    pub fn len(&self) -> (len: usize)
        ensures
            len == self@.len(),
            len <= N,
            unique_keys(self@),
    {
        proof {
            use_type_invariant(self);
        }
        self.len
    }

    /// Adds a binding, in place of the one with the same input, layer and
    /// trigger if there is one. Fails, and changes nothing, where the table
    /// is full and holds no binding to replace.
    pub fn bind(&mut self, binding: Binding) -> (res: Result<(), ()>)
        ensures
            res is Ok <==> bound(old(self)@, binding, N as nat) is Some,
            res is Ok ==> final(self)@ == bound(old(self)@, binding, N as nat).unwrap(),
            res is Err ==> final(self)@ == old(self)@,
    {
        proof {
            use_type_invariant(&*self);
            lemma_find_from(self@, binding.idx, Some(binding.layer), Some(binding.trigger), 0);
        }
        let found = self.position(binding.idx, Some(binding.layer), Some(binding.trigger));
        proof {
            if bound(self@, binding, N as nat) is Some {
                lemma_bound(self@, binding, N as nat, binding.idx, binding.layer, binding.trigger);
            }
        }
        match found {
            Some(at) => {
                proof {
                    assert(self.items@.update(at as int, binding).subrange(0, self.len as int)
                        =~= self@.update(at as int, binding));
                }
                self.items[at] = binding;
                Ok(())
            },
            None => {
                if self.len < N {
                    proof {
                        assert(self.items@.update(self.len as int, binding).subrange(
                            0,
                            self.len + 1,
                        ) =~= self@.push(binding));
                    }
                    self.items[self.len] = binding;
                    self.len = self.len + 1;
                    Ok(())
                } else {
                    Err(())
                }
            },
        }
    }

    /// Removes all bindings.
    pub fn clear(&mut self)
        ensures
            final(self)@ == Seq::<Binding>::empty(),
    {
        proof {
            use_type_invariant(&*self);
            assert(self.items@.subrange(0, 0) =~= Seq::<Binding>::empty());
        }
        self.len = 0;
    }

    fn position(&self, idx: InIdx, layer: Option<LayerIdx>, trigger: Option<Trigger>) -> (at: Option<
        usize,
    >)
        ensures
            match at {
                Some(at) => find_from(self@, idx, layer, trigger, 0) == Some(at as int) && at
                    < self@.len(),
                None => find_from(self@, idx, layer, trigger, 0) is None,
            },
    {
        proof {
            use_type_invariant(self);
        }
        let mut i: usize = 0;
        while i < self.len
            invariant
                i <= self.len <= N,
                find_from(self@, idx, layer, trigger, 0) == find_from(
                    self@,
                    idx,
                    layer,
                    trigger,
                    i as int,
                ),
            decreases self.len - i,
        {
            let b = self.items[i];
            assert(b == self@[i as int]);
            let layer_fits = match layer {
                Some(l) => l == b.layer,
                None => true,
            };
            let trigger_fits = match trigger {
                Some(t) => t == b.trigger,
                None => true,
            };
            if b.idx == idx && layer_fits && trigger_fits {
                return Some(i);
            }
            i += 1;
        }
        None
    }

    /// The first binding of an input, on a layer if one is given and for a
    /// trigger if one is given. With both given there is at most one.
    pub fn filter(&self, idx: InIdx, layer: Option<LayerIdx>, trigger: Option<Trigger>) -> (found:
        Option<Binding>)
        ensures
            found == first_match(self@, idx, layer, trigger),
    {
        proof {
            use_type_invariant(self);
        }
        match self.position(idx, layer, trigger) {
            Some(at) => Some(self.items[at]),
            None => None,
        }
    }
}

} // verus!
