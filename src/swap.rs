//! The generation counter of a ping-pong pair and the model of which
//! generation each buffer of the pair holds.

use vstd::prelude::*;

verus! {

/// The generation held by buffer `index` of a pair whose counter stands at
/// `generation`, when both buffers were last filled with the same contents
/// at generation `base`.
pub open spec fn held_generation(generation: nat, base: nat, index: nat) -> nat {
    if index == generation % 2 {
        generation
    } else if generation == base {
        base
    } else {
        (generation - 1) as nat
    }
}

/// The (source, destination) orientation of the dispatch made at `generation`.
pub open spec fn pair_of(generation: nat) -> (nat, nat) {
    (generation % 2, (generation + 1) % 2)
}

/// The (source, destination) buffer indices of the dispatch made at
/// `generation`: the source is the buffer written last.
pub fn current_pair(generation: u64) -> (r: (usize, usize))
    ensures
        r.0 == pair_of(generation as nat).0,
        r.1 == pair_of(generation as nat).1,
{
    let src: u64 = generation % 2;
    (src as usize, (1 - src) as usize)
}

/// Mathematical model of a double buffer.
pub struct DoubleBufferView {
    /// Number of dispatches made so far.
    pub generation: nat,
    /// Generation at which both buffers were last filled with equal contents.
    pub base: nat,
}

impl DoubleBufferView {
    pub open spec fn wf(self) -> bool {
        self.base <= self.generation
    }

    /// The generation whose state buffer `index` holds.
    pub open spec fn holds(self, index: nat) -> nat {
        held_generation(self.generation, self.base, index)
    }
}

/// The generation counter of a ping-pong pair of buffers or textures.
///
/// Dispatch number `g` reads buffer `g % 2` and writes buffer `(g + 1) % 2`;
/// after it the counter is `g + 1`, so the buffer written last is always
/// `generation % 2`.
pub struct DoubleBuffer {
    generation: u64,
    base: Ghost<nat>,
}

impl View for DoubleBuffer {
    type V = DoubleBufferView;

    closed spec fn view(&self) -> DoubleBufferView {
        DoubleBufferView { generation: self.generation as nat, base: self.base@ }
    }
}

impl DoubleBuffer {
    /// A pair whose two buffers both hold the initial state.
    pub fn new() -> (r: Self)
        ensures
            r@.wf(),
            r@.generation == 0,
            r@.base == 0,
    {
        DoubleBuffer { generation: 0, base: Ghost(0) }
    }

    pub fn generation(&self) -> (r: u64)
        ensures
            r == self@.generation,
    {
        self.generation
    }

    /// The (source, destination) orientation of the next dispatch.
    pub fn current_pair(&self) -> (r: (usize, usize))
        ensures
            r.0 == pair_of(self@.generation).0,
            r.1 == pair_of(self@.generation).1,
    {
        current_pair(self.generation)
    }

    /// The buffer that a render pass reads: the one written last.
    pub fn read_index(&self) -> (r: usize)
        requires
            self@.wf(),
        ensures
            r == self@.generation % 2,
            self@.holds(r as nat) == self@.generation,
    {
        (self.generation % 2) as usize
    }

    /// Records one dispatch: the destination now holds the successor of the
    /// source's generation, and the source is left as it was.
    pub fn advance(&mut self)
        requires
            old(self)@.wf(),
            old(self)@.generation < u64::MAX,
        ensures
            final(self)@.wf(),
            final(self)@.generation == old(self)@.generation + 1,
            final(self)@.base == old(self)@.base,
            final(self)@ == after_dispatches(old(self)@, 1),
            final(self)@.holds(pair_of(old(self)@.generation).1) == old(self)@.holds(
                pair_of(old(self)@.generation).0,
            ) + 1,
            final(self)@.holds(pair_of(old(self)@.generation).0) == old(self)@.holds(
                pair_of(old(self)@.generation).0,
            ),
    {
        self.generation = self.generation + 1;
    }

    /// Records that both buffers were replaced by fresh, equal contents
    /// (after a reallocation); the counter keeps its value.
    pub fn restart(&mut self)
        ensures
            final(self)@.wf(),
            final(self)@.generation == old(self)@.generation,
            final(self)@.base == old(self)@.generation,
    {
        self.base = Ghost(self.generation as nat);
    }
}

/// The model of a pair after `n` more dispatches.
pub open spec fn after_dispatches(v: DoubleBufferView, n: nat) -> DoubleBufferView {
    DoubleBufferView { generation: v.generation + n, base: v.base }
}

/// Starting from generation 0, every dispatch `k` reads buffer `k % 2` and
/// writes buffer `(k + 1) % 2`, two distinct buffers, and its source holds
/// generation `k`, the latest state; after `n` dispatches a render pass reads
/// buffer `n % 2`, which holds generation `n`.
pub proof fn lemma_parity(n: nat)
    ensures
        forall|k: nat|
            k < n ==> {
                &&& #[trigger] pair_of(k) == (k % 2, (k + 1) % 2)
                &&& pair_of(k).0 != pair_of(k).1
                &&& after_dispatches(DoubleBufferView { generation: 0, base: 0 }, k).holds(
                    pair_of(k).0,
                ) == k
            },
        after_dispatches(DoubleBufferView { generation: 0, base: 0 }, n).generation % 2 == n % 2,
        after_dispatches(DoubleBufferView { generation: 0, base: 0 }, n).holds(n % 2) == n,
{
}

} // verus!
