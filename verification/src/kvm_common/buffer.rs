//! A fixed-capacity ring buffer that keeps the most recent items.

use vstd::prelude::*;

verus! {

/// The last `cap` items of `h` (all of them when there are fewer).
pub open spec fn window<T>(h: Seq<T>, cap: nat) -> Seq<T> {
    if h.len() <= cap {
        h
    } else {
        h.subrange(h.len() - cap, h.len() as int)
    }
}

proof fn lemma_mod_wrap(x: int, m: int)
    requires
        0 < m,
        0 <= x < 2 * m,
    ensures
        x % m == (if x < m {
            x
        } else {
            x - m
        }),
{
    if x < m {
        vstd::arithmetic::div_mod::lemma_small_mod(x as nat, m as nat);
    } else {
        vstd::arithmetic::div_mod::lemma_small_mod((x - m) as nat, m as nat);
        vstd::arithmetic::div_mod::lemma_mod_add_multiples_vanish(x - m, m);
    }
}

/// A ring buffer of at most `capacity` items. Once full, each push
/// overwrites the oldest item.
pub struct RingBuffer<T> {
    buffer: Vec<T>,
    capacity: usize,
    head: usize,
    tail: usize,
    size: usize,
    pushed: Ghost<Seq<T>>,
}

impl<T> RingBuffer<T> {
    /// Every item pushed since the buffer was made, oldest first.
    pub closed spec fn history(&self) -> Seq<T> {
        self.pushed@
    }

    /// The capacity the buffer was made with.
    pub closed spec fn cap(&self) -> nat {
        self.capacity as nat
    }

    /// The items the buffer holds, oldest first.
    pub open spec fn contents(&self) -> Seq<T> {
        window(self.history(), self.cap())
    }

    /// The buffer's internal invariant.
    pub closed spec fn wf(&self) -> bool {
        let h = self.pushed@;
        let cap = self.capacity as int;
        &&& self.buffer@.len() == self.size
        &&& self.size <= self.capacity
        &&& self.size == (if h.len() <= cap {
            h.len() as int
        } else {
            cap
        })
        &&& (self.size < self.capacity ==> self.tail == 0)
        &&& (self.capacity > 0 ==> self.tail < self.capacity && self.head < self.capacity)
        &&& (self.capacity == 0 ==> self.tail == 0 && self.head == 0)
        &&& forall|i: int|
            0 <= i < self.size ==> #[trigger] self.buffer@[(self.tail as int + i) % cap] == h[h.len()
                - self.size + i]
    }

    /// An empty buffer that holds at most `capacity` items.
    pub fn new(capacity: usize) -> (r: Self)
        ensures
            r.wf(),
            r.history() == Seq::<T>::empty(),
            r.cap() == capacity,
    {
        RingBuffer {
            buffer: Vec::new(),
            capacity,
            head: 0,
            tail: 0,
            size: 0,
            pushed: Ghost(Seq::empty()),
        }
    }

    /// Adds an item; when the buffer is full the oldest item is dropped.
    /// The capacity must not be zero.
    pub fn push(&mut self, item: T)
        requires
            old(self).wf(),
            old(self).cap() > 0,
        ensures
            final(self).wf(),
            final(self).history() == old(self).history().push(item),
            final(self).cap() == old(self).cap(),
    {
        let ghost h0 = self.pushed@;
        let ghost cap = self.capacity as int;
        let ghost tail0 = self.tail as int;
        let ghost buf0 = self.buffer@;
        let ghost item_g = item;
        if self.size < self.capacity {
            self.buffer.push(item);
            self.size = self.size + 1;
        } else {
            let t = self.tail;
            self.buffer.set(t, item);
            self.tail = if self.tail + 1 == self.capacity {
                0
            } else {
                self.tail + 1
            };
        }
        self.head = if self.head + 1 == self.capacity {
            0
        } else {
            self.head + 1
        };
        self.pushed = Ghost(h0.push(item_g));
        proof {
            let h = self.pushed@;
            let size = self.size as int;
            if buf0.len() < cap {
                assert forall|i: int| 0 <= i < size implies #[trigger] self.buffer@[(self.tail as int
                    + i) % cap] == h[h.len() - size + i] by {
                    lemma_mod_wrap(i, cap);
                    if i < size - 1 {
                        assert(buf0[(tail0 + i) % cap] == h0[h0.len() - (size - 1) + i]);
                    }
                }
            } else {
                assert forall|i: int| 0 <= i < size implies #[trigger] self.buffer@[(self.tail as int
                    + i) % cap] == h[h.len() - size + i] by {
                    lemma_mod_wrap(self.tail as int + i, cap);
                    lemma_mod_wrap(tail0 + i + 1, cap);
                    lemma_mod_wrap(tail0, cap);
                    if i < size - 1 {
                        assert(buf0[(tail0 + (i + 1)) % cap] == h0[h0.len() - size + (i + 1)]);
                    }
                }
            }
        }
    }

    /// The number of items held.
    pub fn len(&self) -> (r: usize)
        requires
            self.wf(),
        ensures
            r == self.contents().len(),
    {
        self.size
    }

    /// The `i`-th item held, oldest first.
    pub fn get(&self, i: usize) -> (r: &T)
        requires
            self.wf(),
            i < self.contents().len(),
        ensures
            *r == self.contents()[i as int],
    {
        let ghost h = self.pushed@;
        let idx = if i >= self.capacity - self.tail {
            i - (self.capacity - self.tail)
        } else {
            self.tail + i
        };
        proof {
            lemma_mod_wrap(self.tail as int + i, self.capacity as int);
            assert(self.buffer@[(self.tail as int + i) % (self.capacity as int)] == h[h.len()
                - self.size + i]);
        }
        &self.buffer[idx]
    }

    /// References to the items held, oldest first.
    pub fn iter(&self) -> (r: Vec<&T>)
        requires
            self.wf(),
        ensures
            r.len() == self.contents().len(),
            forall|i: int| 0 <= i < r.len() ==> *r[i] == self.contents()[i],
    {
        let mut r: Vec<&T> = Vec::new();
        let mut i: usize = 0;
        while i < self.size
            invariant
                self.wf(),
                i <= self.size,
                self.size == self.contents().len(),
                r.len() == i,
                forall|j: int| 0 <= j < i ==> *r[j] == self.contents()[j],
            decreases self.size - i,
        {
            let x = self.get(i);
            r.push(x);
            i += 1;
        }
        r
    }
}

/// A ring buffer of capacity `cap` holds the last `cap` items pushed
/// into it (all of them while fewer were pushed), oldest first.
pub proof fn ring_buffer_keeps_most_recent<T>(b: RingBuffer<T>, item: T)
    requires
        b.wf(),
        b.cap() > 0,
    ensures
        b.contents().len() == (if b.history().len() <= b.cap() {
            b.history().len()
        } else {
            b.cap()
        }),
        b.contents().len() > 0 ==> b.contents().last() == b.history().last(),
        window(b.history().push(item), b.cap()).last() == item,
        b.history().len() >= b.cap() ==> window(b.history().push(item), b.cap())
            == window(b.history(), b.cap()).drop_first().push(item),
{
    let h = b.history();
    let cap = b.cap();
    if h.len() >= cap {
        let w1 = window(h.push(item), cap);
        let w0 = window(h, cap);
        assert(w1 =~= w0.drop_first().push(item));
    }
}

} // verus!
