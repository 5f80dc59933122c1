use vstd::arithmetic::div_mod::lemma_small_mod;
use vstd::prelude::*;

verus! {

/// Why a queue operation could not be carried out.
#[derive(Debug, Clone, Copy, PartialEq, Eq, Structural)]
pub enum State {
    /// `push` on a queue that holds as many items as it can.
    Full,
    /// `pop` on a queue that holds nothing.
    Empty,
}

pub type QueueResult<T> = Result<T, State>;

/// The contents of a queue of capacity `cap` that held `q` after `push` was
/// called with each item of `xs` in turn: an item is appended when there is
/// room and turned away otherwise.
pub open spec fn push_all<T>(q: Seq<T>, cap: nat, xs: Seq<T>) -> Seq<T>
    decreases xs.len(),
{
    if xs.len() == 0 {
        q
    } else {
        let before = push_all(q, cap, xs.drop_last());
        if before.len() < cap {
            before.push(xs.last())
        } else {
            before
        }
    }
}

/// Pushing onto an empty queue of capacity `cap`: the first `cap` pushes
/// succeed and keep their order, and every later push is turned away.
pub proof fn lemma_fill_to_capacity<T>(cap: nat, xs: Seq<T>)
    ensures
        xs.len() <= cap ==> push_all(Seq::empty(), cap, xs) == xs,
        xs.len() > cap ==> push_all(Seq::empty(), cap, xs) == xs.take(cap as int),
    decreases xs.len(),
{
    if xs.len() > 0 {
        lemma_fill_to_capacity(cap, xs.drop_last());
        if xs.len() <= cap {
            assert(xs.drop_last().push(xs.last()) =~= xs);
        } else if xs.len() == cap + 1 {
            assert(xs.drop_last() =~= xs.take(cap as int));
        } else {
            assert(xs.drop_last().take(cap as int) =~= xs.take(cap as int));
        }
    }
}

/// Popping a queue that holds `q`: the `k`-th pop returns `q[k]` and leaves
/// the items after it, so items leave in the order they were pushed.
pub proof fn lemma_pop_order<T>(q: Seq<T>, k: int)
    requires
        0 <= k < q.len(),
    ensures
        q.skip(k)[0] == q[k],
        q.skip(k).drop_first() == q.skip(k + 1),
{
    assert(q.skip(k).drop_first() =~= q.skip(k + 1));
}

/// A fixed-capacity FIFO ring buffer.
///
/// A queue made with `new(size)` keeps `size + 1` slots and holds at most
/// `size` items: one slot always stays free so that a full ring and an empty
/// one can be told apart by their cursors.
pub struct BoundedQueue<T> {
    data: Vec<Option<T>>,
    size: usize,
    read_index: usize,
    write_index: usize,
    len: usize,
}

impl<T> BoundedQueue<T> {
    /// The slot that holds the `i`-th queued item, counted from the read cursor.
    pub closed spec fn slot(&self, i: int) -> int {
        if self.read_index + i < self.size {
            self.read_index + i
        } else {
            self.read_index + i - self.size
        }
    }

    pub closed spec fn wf(&self) -> bool {
        &&& self.data@.len() == self.size
        &&& 1 <= self.size
        &&& self.read_index < self.size
        &&& self.write_index < self.size
        &&& self.len < self.size
        &&& self.write_index as int == self.slot(self.len as int)
        &&& forall|i: int| 0 <= i < self.len ==> (#[trigger] self.data@[self.slot(i)]) is Some
    }

    /// The slot the next pushed item goes to.
    pub closed spec fn write_slot(&self) -> nat {
        self.write_index as nat
    }

    /// The most items the queue can hold at once.
    pub closed spec fn capacity(&self) -> nat {
        (self.size - 1) as nat
    }

    /// The queued items, oldest first.
    pub closed spec fn view(&self) -> Seq<T> {
        Seq::new(self.len as nat, |i: int| self.data@[self.slot(i)]->Some_0)
    }

    /// An empty queue that holds up to `size` items.
    pub fn new(size: usize) -> (q: BoundedQueue<T>)
        requires
            size < usize::MAX,
        ensures
            q.wf(),
            q@ == Seq::<T>::empty(),
            q.capacity() == size,
            q.write_slot() == 0,
    {
        let real_size = size + 1;
        let mut data: Vec<Option<T>> = Vec::with_capacity(real_size);
        while data.len() < real_size
            invariant
                data.len() <= real_size,
            decreases real_size - data.len(),
        {
            data.push(None);
        }
        BoundedQueue { data, size: real_size, read_index: 0, write_index: 0, len: 0 }
    }

    /// Appends `value` at the back; returns the slot it was stored in, or
    /// `Full` (leaving the queue as it was) when the queue is at capacity.
    pub fn push(&mut self, value: T) -> (r: QueueResult<usize>)
        requires
            old(self).wf(),
        ensures
            final(self).wf(),
            final(self).capacity() == old(self).capacity(),
            old(self)@.len() < old(self).capacity() <==> r is Ok,
            r is Ok ==> final(self)@ == old(self)@.push(value),
            r is Ok ==> r == Ok::<usize, State>(old(self).write_slot() as usize),
            r is Ok ==> r->Ok_0 <= old(self).capacity(),
            r is Ok ==> final(self).write_slot() == (old(self).write_slot() + 1) % (old(
                self,
            ).capacity() + 1),
            r is Err ==> final(self).write_slot() == old(self).write_slot(),
            final(self)@ == push_all(old(self)@, old(self).capacity(), seq![value]),
            r is Err ==> r == Err::<usize, State>(State::Full) && final(self)@ == old(self)@,
    {
        proof {
            assert(seq![value].drop_last() =~= Seq::<T>::empty());
            assert(seq![value].last() == value);
            assert(push_all(self@, self.capacity(), Seq::<T>::empty()) == self@);
        }
        if self.is_full() {
            return Err(State::Full);
        }
        let index = self.write_index;
        self.data[index] = Some(value);
        self.write_index = if self.write_index + 1 == self.size {
            0
        } else {
            self.write_index + 1
        };
        self.len = self.len + 1;
        proof {
            if index + 1 == self.size {
                assert((index + 1) as nat % (self.size as nat) == 0) by {
                    vstd::arithmetic::div_mod::lemma_mod_self_0(self.size as int);
                }
            } else {
                lemma_small_mod((index + 1) as nat, self.size as nat);
            }
        }
        assert(self@ =~= old(self)@.push(value)) by {
            assert forall|i: int| 0 <= i < old(self).len implies #[trigger] old(self).slot(i)
                != index by {}
        }
        assert forall|i: int| 0 <= i < self.len implies (#[trigger] self.data@[self.slot(i)]) is Some by {
            if i < old(self).len {
                assert(old(self).data@[old(self).slot(i)] is Some);
            }
        }
        Ok(index)
    }

    /// Removes and returns the item at the front, or `Empty` (leaving the
    /// queue as it was) when there is none.
    pub fn pop(&mut self) -> (r: QueueResult<T>)
        requires
            old(self).wf(),
        ensures
            final(self).wf(),
            final(self).capacity() == old(self).capacity(),
            old(self)@.len() > 0 <==> r is Ok,
            final(self).write_slot() == old(self).write_slot(),
            r is Ok ==> r == Ok::<T, State>(old(self)@[0]) && final(self)@ == old(self)@.drop_first(),
            r is Err ==> r == Err::<T, State>(State::Empty) && final(self)@ == old(self)@,
    {
        if self.is_empty() {
            return Err(State::Empty);
        }
        let index = self.read_index;
        assert(self.data@[self.slot(0)] is Some);
        let value = self.data[index].take();
        self.read_index = if self.read_index + 1 == self.size {
            0
        } else {
            self.read_index + 1
        };
        self.len = self.len - 1;
        assert forall|i: int| 0 <= i < self.len implies #[trigger] self.slot(i) == old(self).slot(
            i + 1,
        ) && old(self).slot(i + 1) != index by {}
        assert(self@ =~= old(self)@.drop_first()) by {
            assert forall|i: int| 0 <= i < self.len implies self.data@[self.slot(i)] == old(
                self,
            ).data@[old(self).slot(i + 1)] by {
                assert(self.slot(i) == old(self).slot(i + 1));
            }
        }
        match value {
            Some(v) => Ok(v),
            None => Err(State::Empty),
        }
    }

    /// Whether the queue holds as many items as it can.
    pub fn is_full(&self) -> (r: bool)
        requires
            self.wf(),
        ensures
            r == (self@.len() == self.capacity()),
    {
        let next = if self.write_index + 1 == self.size {
            0
        } else {
            self.write_index + 1
        };
        next == self.read_index
    }

    /// The number of queued items.
    pub fn len(&self) -> (r: usize)
        requires
            self.wf(),
        ensures
            r == self@.len(),
            r <= self.capacity(),
    {
        self.len
    }

    /// Whether the queue holds no item.
    pub fn is_empty(&self) -> (r: bool)
        requires
            self.wf(),
        ensures
            r == (self@.len() == 0),
    {
        self.write_index == self.read_index
    }

    /// Drops every queued item.
    pub fn clear(&mut self)
        requires
            old(self).wf(),
        ensures
            final(self).wf(),
            final(self).capacity() == old(self).capacity(),
            final(self)@ == Seq::<T>::empty(),
            final(self).write_slot() == 0,
    {
        self.len = 0;
        self.write_index = 0;
        self.read_index = 0;
        let mut i: usize = 0;
        while i < self.data.len()
            invariant
                self.data@.len() == self.size,
                self.size == old(self).size,
                1 <= self.size,
                self.len == 0,
                self.read_index == 0,
                self.write_index == 0,
            decreases self.data@.len() - i,
        {
            self.data[i] = None;
            i = i + 1;
        }
        assert(self@ =~= Seq::<T>::empty());
    }
}

} // verus!
