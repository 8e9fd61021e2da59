//! Bounded FIFO queue with a fixed capacity, used for the memory-mapped
//! command, response and data channels between controllers. Push on full and
//! pop on empty fail without blocking; callers treat that as backpressure
//! and re-poll on their next tick.

use vstd::prelude::*;

verus! {

/// A bounded FIFO over copyable elements, stored as a ring.
pub struct Fifo<T> {
    buffer: Vec<T>,
    head: usize,
    len: usize,
}

/// The slot `i` places past `head` on a ring of `cap` slots, for `head` and
/// `i` both below `cap`.
pub open spec fn ring_index(head: int, i: int, cap: int) -> int {
    if head + i < cap {
        head + i
    } else {
        head + i - cap
    }
}

impl<T: Copy> Fifo<T> {
    /// Size fixed at construction; the ring indices stay inside the buffer.
    pub closed spec fn wf(&self) -> bool {
        &&& 1 <= self.buffer.len() <= 0x4000_0000
        &&& self.head < self.buffer.len()
        &&& self.len <= self.buffer.len()
    }

    /// The queued elements, oldest first.
    pub closed spec fn contents(&self) -> Seq<T> {
        Seq::new(
            self.len as nat,
            |i: int| self.buffer[ring_index(self.head as int, i, self.buffer.len() as int)],
        )
    }

    /// The fixed capacity chosen at construction.
    pub closed spec fn capacity(&self) -> nat {
        self.buffer.len() as nat
    }

    /// Creates a FIFO of capacity `size`; `fill` is the throwaway element
    /// the backing ring is seeded with.
    pub fn new(size: usize, fill: T) -> (r: Fifo<T>)
        requires
            1 <= size <= 0x4000_0000,
        ensures
            r.wf(),
            r.capacity() == size,
            r.contents() == Seq::<T>::empty(),
    {
        let mut buffer: Vec<T> = Vec::new();
        let mut i: usize = 0;
        while i < size
            invariant
                i <= size,
                buffer.len() == i,
            decreases size - i,
        {
            buffer.push(fill);
            i += 1;
        }
        let r = Fifo { buffer, head: 0, len: 0 };
        proof {
            assert(r.contents() =~= Seq::<T>::empty());
        }
        r
    }

    /// Pops the oldest element; fails on an empty FIFO.
    pub fn read_one(&mut self) -> (r: Result<T, ()>)
        requires
            old(self).wf(),
        ensures
            final(self).wf(),
            final(self).capacity() == old(self).capacity(),
            old(self).contents().len() == 0 ==> r is Err && final(self).contents() == old(self).contents(),
            old(self).contents().len() > 0 ==> r == Ok::<T, ()>(old(self).contents()[0]) && final(self).contents() == old(self).contents().drop_first(),
    {
        if self.len == 0 {
            return Err(());
        }
        let value = self.buffer[self.head];
        let cap = self.buffer.len();
        self.head = if self.head + 1 == cap {
            0
        } else {
            self.head + 1
        };
        self.len = self.len - 1;
        proof {
            assert(final(self).contents() =~= old(self).contents().drop_first());
        }
        Ok(value)
    }

    /// Pushes a new element at the back; fails on a full FIFO.
    pub fn write_one(&mut self, data: T) -> (r: Result<(), ()>)
        requires
            old(self).wf(),
        ensures
            final(self).wf(),
            final(self).capacity() == old(self).capacity(),
            old(self).contents().len() == old(self).capacity() ==> r is Err && final(self).contents() == old(self).contents(),
            old(self).contents().len() < old(self).capacity() ==> r is Ok && final(self).contents()
                == old(self).contents().push(data),
    {
        let cap = self.buffer.len();
        if self.len == cap {
            return Err(());
        }
        let tail = if self.head + self.len >= cap {
            self.head + self.len - cap
        } else {
            self.head + self.len
        };
        self.buffer.set(tail, data);
        self.len = self.len + 1;
        proof {
            assert(final(self).contents() =~= old(self).contents().push(data));
        }
        Ok(())
    }

    /// How many elements can be popped.
    pub fn read_available(&self) -> (r: usize)
        requires
            self.wf(),
        ensures
            r == self.contents().len(),
    {
        self.len
    }

    /// How many elements can still be pushed.
    pub fn write_available(&self) -> (r: usize)
        requires
            self.wf(),
        ensures
            r == self.capacity() - self.contents().len(),
    {
        self.buffer.len() - self.len
    }

    pub fn is_empty(&self) -> (r: bool)
        requires
            self.wf(),
        ensures
            r == (self.contents().len() == 0),
    {
        self.len == 0
    }

    pub fn is_full(&self) -> (r: bool)
        requires
            self.wf(),
        ensures
            r == (self.contents().len() == self.capacity()),
    {
        self.len == self.buffer.len()
    }

    /// Discards everything queued.
    pub fn clear(&mut self)
        requires
            old(self).wf(),
        ensures
            final(self).wf(),
            final(self).capacity() == old(self).capacity(),
            final(self).contents() == Seq::<T>::empty(),
    {
        self.head = 0;
        self.len = 0;
        proof {
            assert(final(self).contents() =~= Seq::<T>::empty());
        }
    }
}

/// What `queued.len()` pops leave behind: after `n` pops of a FIFO holding
/// `queued`, the FIFO holds the suffix of `queued` from `n` on.
pub open spec fn after_pops<T>(queued: Seq<T>, n: int) -> Seq<T>
    recommends
        0 <= n <= queued.len(),
{
    queued.subrange(n, queued.len() as int)
}

/// FIFO order: however pushes and pops are interleaved, the `n`-th pop
/// returns the `n`-th element ever pushed. Stated over the contents model
/// that `read_one` and `write_one` are specified against: after `n` pops,
/// the next pop returns `queued[n]`, and pushes only ever append.
pub proof fn lemma_fifo_order<T>(queued: Seq<T>, n: int)
    requires
        0 <= n < queued.len(),
    ensures
        after_pops(queued, n)[0] == queued[n],
        after_pops(queued, n).drop_first() == after_pops(queued, n + 1),
{
    assert(after_pops(queued, n).drop_first() =~= after_pops(queued, n + 1));
}

/// Conservation: the pop and push room of a FIFO always sum to its capacity.
/// `read_available` and `write_available` return exactly these two numbers.
pub proof fn lemma_available_sums_to_capacity<T: Copy>(fifo: &Fifo<T>)
    requires
        fifo.wf(),
    ensures
        fifo.contents().len() + (fifo.capacity() - fifo.contents().len()) == fifo.capacity(),
        fifo.contents().len() <= fifo.capacity(),
{
}


/// One queue operation of an interleaving.
pub enum FifoOp<T> {
    Push(T),
    Pop,
}

/// The values a run of operations tries to push, in order.
pub open spec fn pushes_of<T>(ops: Seq<FifoOp<T>>) -> Seq<T>
    decreases ops.len(),
{
    if ops.len() == 0 {
        Seq::empty()
    } else {
        match ops[0] {
            FifoOp::Push(v) => seq![v] + pushes_of(ops.drop_first()),
            FifoOp::Pop => pushes_of(ops.drop_first()),
        }
    }
}

/// Runs an interleaving of pushes and pops over the contents model that
/// `write_one` and `read_one` are specified against: a push on a full
/// queue and a pop on an empty queue fail and change nothing. Returns the
/// final contents and everything popped, in pop order.
pub open spec fn spec_apply_ops<T>(
    contents: Seq<T>,
    popped: Seq<T>,
    ops: Seq<FifoOp<T>>,
    cap: nat,
) -> (Seq<T>, Seq<T>)
    decreases ops.len(),
{
    if ops.len() == 0 {
        (contents, popped)
    } else {
        match ops[0] {
            FifoOp::Push(v) => {
                if contents.len() < cap {
                    spec_apply_ops(contents.push(v), popped, ops.drop_first(), cap)
                } else {
                    spec_apply_ops(contents, popped, ops.drop_first(), cap)
                }
            },
            FifoOp::Pop => {
                if contents.len() > 0 {
                    spec_apply_ops(
                        contents.drop_first(),
                        popped.push(contents[0]),
                        ops.drop_first(),
                        cap,
                    )
                } else {
                    spec_apply_ops(contents, popped, ops.drop_first(), cap)
                }
            },
        }
    }
}

/// The generalised order-preservation invariant: however pushes and pops
/// interleave, as long as the pushes fit beside what is already queued,
/// everything popped followed by everything still queued is exactly the
/// old popped-plus-queued values followed by the new pushes, in order.
pub proof fn lemma_interleaving_preserves_order<T>(
    contents: Seq<T>,
    popped: Seq<T>,
    ops: Seq<FifoOp<T>>,
    cap: nat,
)
    requires
        contents.len() + pushes_of(ops).len() <= cap,
    ensures
        ({
            let (c2, p2) = spec_apply_ops(contents, popped, ops, cap);
            p2 + c2 == (popped + contents) + pushes_of(ops)
        }),
    decreases ops.len(),
{
    if ops.len() == 0 {
        assert(popped + contents + pushes_of(ops) =~= popped + contents);
    } else {
        let rest = ops.drop_first();
        match ops[0] {
            FifoOp::Push(v) => {
                assert(pushes_of(ops) == seq![v] + pushes_of(rest));
                lemma_interleaving_preserves_order(contents.push(v), popped, rest, cap);
                assert(popped + contents.push(v) =~= (popped + contents).push(v));
                assert((popped + contents).push(v) + pushes_of(rest) =~= (popped + contents) + (
                seq![v] + pushes_of(rest)));
            },
            FifoOp::Pop => {
                if contents.len() > 0 {
                    lemma_interleaving_preserves_order(
                        contents.drop_first(),
                        popped.push(contents[0]),
                        rest,
                        cap,
                    );
                    assert(popped.push(contents[0]) + contents.drop_first() =~= popped + contents);
                } else {
                    lemma_interleaving_preserves_order(contents, popped, rest, cap);
                }
            },
        }
    }
}

/// FIFO order for whole interleavings: starting from an empty queue, any
/// interleaving whose pushes number at most the capacity loses nothing
/// and pops values exactly in push order — whatever is still queued at
/// the end is the tail of the pushed sequence.
pub proof fn lemma_interleaving_fifo_order<T>(ops: Seq<FifoOp<T>>, cap: nat)
    requires
        pushes_of(ops).len() <= cap,
    ensures
        ({
            let (c2, p2) = spec_apply_ops(Seq::empty(), Seq::empty(), ops, cap);
            p2 + c2 == pushes_of(ops)
        }),
{
    lemma_interleaving_preserves_order(Seq::empty(), Seq::empty(), ops, cap);
    let (c2, p2) = spec_apply_ops(Seq::<T>::empty(), Seq::<T>::empty(), ops, cap);
    assert((Seq::<T>::empty() + Seq::<T>::empty()) + pushes_of(ops) =~= pushes_of(ops));
}

} // verus!
