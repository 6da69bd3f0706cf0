//! The spectral window: a fixed number of sample slots and a write cursor.
//!
//! The window is generic in the sample type, which it only stores and hands
//! back. What is transformed is always the whole of the slots.

use vstd::arithmetic::div_mod::{lemma_fundamental_div_mod, lemma_fundamental_div_mod_converse};
use vstd::prelude::*;
use vstd::slice::slice_to_vec;

verus! {

/// Whether `n` is 1, 2, 4, 8, ...
pub open spec fn is_power_of_two(n: nat) -> bool
    decreases n,
{
    n == 1 || (n > 1 && n % 2 == 0 && is_power_of_two(n / 2))
}

/// What a window is, as a value: its slots and the place of the next write.
pub struct WindowView<T> {
    pub slots: Seq<T>,
    pub cursor: nat,
}

impl<T> WindowView<T> {
    /// The cursor is within the slots or just behind them, and the number of
    /// slots is a power of two.
    pub open spec fn wf(self) -> bool {
        &&& self.cursor <= self.slots.len()
        &&& is_power_of_two(self.slots.len())
    }

    /// The number of slots.
    pub open spec fn capacity(self) -> nat {
        self.slots.len()
    }

    /// Every slot has been written since the last restart.
    pub open spec fn full(self) -> bool {
        self.cursor >= self.slots.len()
    }

    /// The samples written since the last restart, oldest first.
    pub open spec fn pending(self) -> Seq<T> {
        self.slots.take(self.cursor as int)
    }

    /// After one sample is written at the cursor.
    pub open spec fn pushed(self, sample: T) -> WindowView<T> {
        WindowView { slots: self.slots.update(self.cursor as int, sample), cursor: self.cursor + 1 }
    }

    /// After the cursor is put back to the first slot. The slots keep what they hold.
    pub open spec fn restarted(self) -> WindowView<T> {
        WindowView { slots: self.slots, cursor: 0 }
    }

    /// After `block` is written from the cursor on.
    pub open spec fn appended(self, block: Seq<T>) -> WindowView<T> {
        WindowView {
            slots: Seq::new(
                self.slots.len(),
                |i: int|
                    if self.cursor <= i < self.cursor + block.len() {
                        block[i - self.cursor]
                    } else {
                        self.slots[i]
                    },
            ),
            cursor: self.cursor + block.len(),
        }
    }

    /// Pushing `samples` one by one, where each window that becomes full is
    /// handed to the transform and restarted before the next push: the
    /// window that is left, and the slots of each window handed over, in
    /// order.
    pub open spec fn fed(self, samples: Seq<T>) -> (WindowView<T>, Seq<Seq<T>>)
        decreases samples.len(),
    {
        if samples.len() == 0 {
            (self, Seq::empty())
        } else {
            let (before, frames) = self.fed(samples.drop_last());
            let after = before.pushed(samples.last());
            if after.full() {
                (after.restarted(), frames.push(after.slots))
            } else {
                (after, frames)
            }
        }
    }

    /// Whether a block of `incoming` samples no longer fits behind the cursor.
    pub open spec fn overflows(self, incoming: nat) -> bool {
        self.cursor + incoming > self.slots.len()
    }

    /// The discard-on-overflow policy for a block that is no longer than the
    /// window. A block that fits is appended. One that does not fit hands the
    /// slots as they are to the transform, and is then written whole from the
    /// first slot on: the slots behind the old cursor are never filled in
    /// this cycle.
    pub open spec fn discard_on_overflow(self, block: Seq<T>) -> (WindowView<T>, Option<Seq<T>>) {
        if self.overflows(block.len()) {
            (self.restarted().appended(block), Some(self.slots))
        } else {
            (self.appended(block), None)
        }
    }
}

/// How quotient and remainder by `c` move from `m` to `m + 1`.
proof fn lemma_div_mod_successor(m: int, c: int)
    requires
        0 <= m,
        0 < c,
    ensures
        0 <= m % c < c,
        m == (m / c) * c + m % c,
        m % c + 1 == c ==> (m + 1) / c == m / c + 1 && (m + 1) % c == 0,
        m % c + 1 < c ==> (m + 1) / c == m / c && (m + 1) % c == m % c + 1,
{
    lemma_fundamental_div_mod(m, c);
    let q = m / c;
    let r = m % c;
    assert(c * q == q * c) by (nonlinear_arith);
    if r + 1 == c {
        assert(m + 1 == (q + 1) * c + 0) by (nonlinear_arith)
            requires
                m == q * c + r,
                r + 1 == c,
        ;
        lemma_fundamental_div_mod_converse(m + 1, c, q + 1, 0);
    } else {
        lemma_fundamental_div_mod_converse(m + 1, c, q, r + 1);
    }
}

/// Of `k * c + r` samples pushed into an empty window of `c` slots, with
/// `r < c`, exactly `k` windows go to the transform. The `j`-th of them
/// holds the samples from `j * c` up to `(j + 1) * c`, so each is a full
/// window of fresh samples; and the last `r` samples are left pending.
pub proof fn lemma_fed_windows<T>(w: WindowView<T>, samples: Seq<T>)
    requires
        w.wf(),
        w.cursor == 0,
    ensures
        ({
            let c = w.capacity() as int;
            let n = samples.len() as int;
            let (end, frames) = w.fed(samples);
            &&& end.wf()
            &&& end.capacity() == c
            &&& frames.len() == n / c
            &&& forall|j: int|
                0 <= j < n / c ==> #[trigger] frames[j] == samples.subrange(j * c, (j + 1) * c)
            &&& end.cursor == n % c
            &&& end.pending() == samples.subrange(n - n % c, n)
        }),
    decreases samples.len(),
{
    let c = w.capacity() as int;
    let n = samples.len() as int;
    if n == 0 {
        lemma_fundamental_div_mod_converse(0, c, 0, 0);
        assert(w.pending() =~= samples.subrange(0, 0));
    } else {
        let head = samples.drop_last();
        lemma_fed_windows(w, head);
        lemma_div_mod_successor(n - 1, c);
        let (before, earlier) = w.fed(head);
        let after = before.pushed(samples.last());
        let (end, frames) = w.fed(samples);
        let q = (n - 1) / c;
        let r = (n - 1) % c;
        assert(before.pending() == head.subrange(n - 1 - r, n - 1));
        assert forall|i: int| 0 <= i < r implies before.slots[i] == samples[n - 1 - r + i] by {
            assert(before.pending()[i] == head.subrange(n - 1 - r, n - 1)[i]);
        }
        assert forall|j: int| 0 <= j < q implies #[trigger] earlier[j] == samples.subrange(
            j * c,
            (j + 1) * c,
        ) by {
            assert((j + 1) * c <= q * c) by (nonlinear_arith)
                requires
                    j + 1 <= q,
                    0 < c,
            ;
            assert(0 <= j * c) by (nonlinear_arith)
                requires
                    0 <= j,
                    0 < c,
            ;
            assert(j * c <= (j + 1) * c) by (nonlinear_arith)
                requires
                    0 < c,
            ;
            assert(head.subrange(j * c, (j + 1) * c) =~= samples.subrange(j * c, (j + 1) * c));
        }
        if after.full() {
            assert(q * c == n - c);
            assert((q + 1) * c == n) by (nonlinear_arith)
                requires
                    q * c == n - c,
            ;
            assert(after.slots =~= samples.subrange(q * c, (q + 1) * c));
            assert(end.pending() =~= samples.subrange(n, n));
        } else {
            assert(end.pending() =~= samples.subrange(n - n % c, n));
        }
    }
}

/// What a push leaves behind.
#[derive(Clone, Copy, Debug, PartialEq, Eq)]
pub enum WindowStatus {
    /// There is room for more samples.
    Filling,
    /// The window is full and waits for its transform.
    Ready,
}

/// Why a window operation was refused.
#[derive(Clone, Copy, Debug, PartialEq, Eq)]
pub enum WindowError {
    /// The capacity asked for is not a power of two.
    CapacityNotPowerOfTwo,
    /// The block is longer than the window.
    BlockTooLong,
}

/// A fixed-capacity accumulator of samples that await their transform.
pub struct Window<T> {
    slots: Vec<T>,
    cursor: usize,
}

impl<T> View for Window<T> {
    type V = WindowView<T>;

    closed spec fn view(&self) -> WindowView<T> {
        WindowView { slots: self.slots@, cursor: self.cursor as nat }
    }
}

/// Decides whether `n` is a power of two.
pub fn power_of_two(n: usize) -> (r: bool)
    ensures
        r == is_power_of_two(n as nat),
{
    if n == 0 {
        return false;
    }
    let mut m: usize = n;
    while m % 2 == 0
        invariant
            m > 0,
            is_power_of_two(m as nat) == is_power_of_two(n as nat),
        decreases m,
    {
        m = m / 2;
    }
    m == 1
}

impl<T> Window<T> {
    /// What holds of every window that this module hands out.
    pub open spec fn wf(&self) -> bool {
        self@.wf()
    }
}

impl<T: Copy> Window<T> {
    /// A window of `capacity` slots, each holding `fill`, with nothing pending.
    /// The capacity must be a power of two.
    pub fn new(capacity: usize, fill: T) -> (r: Result<Window<T>, WindowError>)
        ensures
            r is Ok <==> is_power_of_two(capacity as nat),
            r matches Ok(w) ==> w.wf() && w@ == (WindowView { slots: Seq::new(capacity as nat, |i: int| fill), cursor: 0 }),
            r matches Err(e) ==> e == WindowError::CapacityNotPowerOfTwo,
    {
        if !power_of_two(capacity) {
            return Err(WindowError::CapacityNotPowerOfTwo);
        }
        let mut slots: Vec<T> = Vec::new();
        let mut i: usize = 0;
        while i < capacity
            invariant
                i <= capacity,
                slots@ == Seq::new(i as nat, |j: int| fill),
            decreases capacity - i,
        {
            slots.push(fill);
            i = i + 1;
        }
        Ok(Window { slots, cursor: 0 })
    }

    /// The number of slots.
    pub fn capacity(&self) -> (r: usize)
        ensures
            r == self@.capacity(),
    {
        self.slots.len()
    }

    /// The number of samples written since the last restart.
    pub fn cursor(&self) -> (r: usize)
        ensures
            r == self@.cursor,
    {
        self.cursor
    }

    /// Whether every slot has been written since the last restart.
    pub fn is_full(&self) -> (r: bool)
        ensures
            r == self@.full(),
    {
        self.cursor >= self.slots.len()
    }

    /// All the slots, as the transform reads them.
    pub fn slots(&self) -> (r: &[T])
        ensures
            r@ == self@.slots,
    {
        self.slots.as_slice()
    }

    /// Writes one sample at the cursor and advances it. The window must have
    /// been restarted since it last reported `Ready`.
    pub fn push(&mut self, sample: T) -> (status: WindowStatus)
        requires
            old(self).wf(),
            !old(self)@.full(),
        ensures
            final(self).wf(),
            final(self)@ == old(self)@.pushed(sample),
            status == (if final(self)@.full() {
                WindowStatus::Ready
            } else {
                WindowStatus::Filling
            }),
    {
        let at: usize = self.cursor;
        assert(at < self.slots.len());
        self.slots.set(at, sample);
        self.cursor = at + 1;
        if self.cursor == self.slots.len() {
            WindowStatus::Ready
        } else {
            WindowStatus::Filling
        }
    }

    /// Puts the cursor back to the first slot, as the transform does when it
    /// is done with the window.
    pub fn restart(&mut self)
        requires
            old(self).wf(),
        ensures
            final(self).wf(),
            final(self)@ == old(self)@.restarted(),
    {
        self.cursor = 0;
    }

    /// Takes a block of samples under the discard-on-overflow policy. Where
    /// the block does not fit behind the cursor, the slots as they are come
    /// back for the transform, and the block starts the next window.
    pub fn push_block(&mut self, block: &[T]) -> (r: Result<Option<Vec<T>>, WindowError>)
        requires
            old(self).wf(),
        ensures
            final(self).wf(),
            r is Ok <==> block@.len() <= old(self)@.capacity(),
            r matches Ok(frame) ==> {
                &&& final(self)@ == old(self)@.discard_on_overflow(block@).0
                &&& frame.is_some() == old(self)@.overflows(block@.len())
                &&& frame matches Some(f) ==> f@ == old(self)@.slots
            },
            r matches Err(e) ==> e == WindowError::BlockTooLong && final(self)@ == old(self)@,
    {
        let n: usize = block.len();
        if n > self.slots.len() {
            return Err(WindowError::BlockTooLong);
        }
        let mut frame: Option<Vec<T>> = None;
        if n > self.slots.len() - self.cursor {
            frame = Some(slice_to_vec(self.slots.as_slice()));
            self.cursor = 0;
        }
        let ghost before = self@;
        let start: usize = self.cursor;
        let mut i: usize = 0;
        while i < n
            invariant
                i <= n,
                n == block@.len(),
                start + n <= self.slots.len(),
                self.cursor == start,
                before.cursor == start,
                self.slots@.len() == before.slots.len(),
                is_power_of_two(self.slots.len() as nat),
                forall|j: int|
                    0 <= j < self.slots@.len() ==> self.slots@[j] == (if start <= j < start + i {
                        block@[j - start]
                    } else {
                        before.slots[j]
                    }),
            decreases n - i,
        {
            self.slots.set(start + i, block[i]);
            i = i + 1;
        }
        self.cursor = start + n;
        proof {
            assert(self@.slots =~= before.appended(block@).slots);
        }
        Ok(frame)
    }
}

} // verus!
