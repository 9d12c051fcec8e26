//! The fixed-capacity sample window behind the Edgeworth retry tuner.
//!
//! Signals are written round-robin into a 32-slot array. The window keeps the
//! most recent `WINDOW_CAPACITY` signals; older ones are overwritten. The
//! statistics read the slots `0..len` in storage order, which is a rotation of
//! the arrival order once the window has wrapped.
use vstd::prelude::*;

verus! {

/// Number of samples the window keeps.
pub const WINDOW_CAPACITY: usize = 32;

/// Minimum number of samples before higher-order moments are trusted.
pub const MIN_SAMPLES: usize = 15;

/// The window after one more signal: appended, with the oldest dropped once
/// the window is full.
pub open spec fn window_step<T>(w: Seq<T>, x: T) -> Seq<T> {
    if w.len() < WINDOW_CAPACITY {
        w.push(x)
    } else {
        w.push(x).drop_first()
    }
}

/// The window after a whole stream of signals, starting from `w`.
pub open spec fn window_after<T>(w: Seq<T>, xs: Seq<T>) -> Seq<T>
    decreases xs.len(),
{
    if xs.len() == 0 {
        w
    } else {
        window_step(window_after(w, xs.drop_last()), xs.last())
    }
}

/// The last `min(n, WINDOW_CAPACITY)` elements of a stream.
pub open spec fn most_recent<T>(xs: Seq<T>) -> Seq<T> {
    if xs.len() <= WINDOW_CAPACITY {
        xs
    } else {
        xs.subrange(xs.len() - WINDOW_CAPACITY, xs.len() as int)
    }
}

/// A ring buffer of the most recent signals.
#[derive(Debug, Clone)]
pub struct SampleWindow<T> {
    buffer: [T; 32],
    head: usize,
    count: usize,
}

impl<T: Copy> SampleWindow<T> {
    /// Well-formedness: the write position follows the stored samples until
    /// the window is full.
    pub closed spec fn wf(&self) -> bool {
        &&& self.count <= WINDOW_CAPACITY
        &&& self.head < WINDOW_CAPACITY
        &&& self.count < WINDOW_CAPACITY ==> self.head == self.count
    }

    /// Slot of the oldest stored signal.
    closed spec fn start(&self) -> int {
        if self.count < WINDOW_CAPACITY {
            0
        } else {
            self.head as int
        }
    }

    /// Slot of the `i`-th oldest stored signal.
    closed spec fn slot(&self, i: int) -> int {
        if self.start() + i < WINDOW_CAPACITY {
            self.start() + i
        } else {
            self.start() + i - WINDOW_CAPACITY
        }
    }

    /// The stored signals in arrival order, oldest first.
    pub closed spec fn view(&self) -> Seq<T> {
        Seq::new(self.count as nat, |i: int| self.buffer@[self.slot(i)])
    }

    /// The stored signals in slot order: what the moment computation reads.
    pub closed spec fn stored(&self) -> Seq<T> {
        self.buffer@.subrange(0, self.count as int)
    }

    /// The storage slot the next signal is written to. Once the window is
    /// full it is the slot of the oldest signal.
    pub closed spec fn write_position(&self) -> int {
        self.head as int
    }

    /// An empty window; every slot starts out holding `fill`.
    pub fn new(fill: T) -> (w: Self)
        ensures
            w.wf(),
            w@ == Seq::<T>::empty(),
            w.stored() == Seq::<T>::empty(),
            w.write_position() == 0,
    {
        let w = SampleWindow { buffer: [fill; 32], head: 0, count: 0 };
        assert(w@ =~= Seq::<T>::empty());
        assert(w.stored() =~= Seq::<T>::empty());
        w
    }

    /// Records one signal, overwriting the oldest once the window is full.
    pub fn observe(&mut self, signal: T)
        requires
            old(self).wf(),
        ensures
            final(self).wf(),
            final(self)@ == window_step(old(self)@, signal),
            old(self)@.len() < WINDOW_CAPACITY ==> final(self).stored() == old(self).stored().push(
                signal,
            ),
            old(self)@.len() == WINDOW_CAPACITY ==> final(self).stored() == old(self).stored().update(
                old(self).write_position(),
                signal,
            ),
            final(self).write_position() == (old(self).write_position() + 1) % (
            WINDOW_CAPACITY as int),
    {
        let ghost old_w = self@;
        let ghost old_self = *self;
        self.buffer[self.head] = signal;
        self.head = (self.head + 1) % 32;
        if self.count < 32 {
            self.count = self.count + 1;
        }
        proof {
            let expected = window_step(old_w, signal);
            assert(self.buffer@ == old_self.buffer@.update(old_self.head as int, signal));
            if old_self.count < WINDOW_CAPACITY {
                assert forall|i: int| 0 <= i < self.count implies #[trigger] self@[i] == expected[i] by {
                    if i < old_self.count {
                        assert(old_w[i] == old_self.buffer@[i]);
                    }
                }
            } else {
                assert forall|i: int| 0 <= i < self.count implies #[trigger] self@[i] == expected[i] by {
                    assert(expected[i] == old_w.push(signal)[i + 1]);
                    if i + 1 < old_self.count {
                        assert(old_w[i + 1] == old_self.buffer@[old_self.slot(i + 1)]);
                    }
                }
            }
            assert(self@ =~= expected);
            if old_self.count < WINDOW_CAPACITY {
                assert(self.stored() =~= old_self.stored().push(signal));
            } else {
                assert(self.stored() =~= old_self.stored().update(old_self.head as int, signal));
            }
        }
    }

    /// Number of signals held, at most `WINDOW_CAPACITY`.
    pub fn len(&self) -> (n: usize)
        requires
            self.wf(),
        ensures
            n == self@.len(),
            n <= WINDOW_CAPACITY,
    {
        self.count
    }

    /// Whether enough signals are held for skewness and kurtosis.
    pub fn has_min_samples(&self) -> (b: bool)
        requires
            self.wf(),
        ensures
            b == (self@.len() >= MIN_SAMPLES),
    {
        self.count >= MIN_SAMPLES
    }

    /// The signal in storage slot `i`, for `i` below `len()`.
    pub fn stored_at(&self, i: usize) -> (x: T)
        requires
            self.wf(),
            i < self@.len(),
        ensures
            x == self.stored()[i as int],
    {
        self.buffer[i]
    }
}

/// Law: whatever stream of signals is observed from an empty window, the
/// window then holds exactly the last `min(n, WINDOW_CAPACITY)` of them, in
/// arrival order; so it holds `min(n, WINDOW_CAPACITY)` samples.
pub proof fn lemma_window_holds_most_recent<T>(xs: Seq<T>)
    ensures
        window_after(Seq::<T>::empty(), xs) == most_recent(xs),
        window_after(Seq::<T>::empty(), xs).len() == if xs.len() <= WINDOW_CAPACITY {
            xs.len()
        } else {
            WINDOW_CAPACITY as nat
        },
    decreases xs.len(),
{
    if xs.len() > 0 {
        let prev = xs.drop_last();
        lemma_window_holds_most_recent(prev);
        let w = most_recent(prev);
        let x = xs.last();
        if prev.len() < WINDOW_CAPACITY {
            assert(w.push(x) =~= most_recent(xs));
        } else {
            assert(w.push(x).drop_first() =~= most_recent(xs));
        }
    }
}

impl<T: Copy> SampleWindow<T> {
    /// Law: the slots the moment computation reads hold the same signals as
    /// the window, each as often; until the window first wraps they are even
    /// in arrival order.
    pub proof fn lemma_stored_matches_window(&self)
        requires
            self.wf(),
        ensures
            self.stored().to_multiset() == self@.to_multiset(),
            self@.len() < WINDOW_CAPACITY ==> self.stored() == self@,
            0 <= self.write_position() < WINDOW_CAPACITY,
            self@.len() < WINDOW_CAPACITY ==> self.write_position() == self@.len(),
            self@.len() == WINDOW_CAPACITY ==> self@[0] == self.stored()[self.write_position()],
    {
        let n = self.count as int;
        let w = self@;
        let st = self.stored();
        if self.count < WINDOW_CAPACITY {
            assert(st =~= w);
        } else {
            let h = self.head as int;
            // the window is the stored slots rotated left by `h`
            assert(w =~= st.subrange(h, n) + st.subrange(0, h));
            assert(st =~= st.subrange(0, h) + st.subrange(h, n));
            vstd::seq_lib::lemma_multiset_commutative(st.subrange(h, n), st.subrange(0, h));
            vstd::seq_lib::lemma_multiset_commutative(st.subrange(0, h), st.subrange(h, n));
        }
    }
}

} // verus!
