//! Bounded rolling histories: telemetry plot series and the end-effector
//! trail keep only their most recent samples.

use std::collections::VecDeque;
use vstd::prelude::*;

verus! {

/// Appends `v` to `s`, then drops the oldest sample if that takes the length
/// past `max_len`.
pub open spec fn push_bounded<T>(s: Seq<T>, v: T, max_len: nat) -> Seq<T> {
    let t = s.push(v);
    if t.len() > max_len {
        t.subrange(1, t.len() as int)
    } else {
        t
    }
}

/// The history left by pushing `vals`, in order, onto `s`.
pub open spec fn push_all<T>(s: Seq<T>, vals: Seq<T>, max_len: nat) -> Seq<T>
    decreases vals.len(),
{
    if vals.len() == 0 {
        s
    } else {
        push_bounded(push_all(s, vals.drop_last(), max_len), vals.last(), max_len)
    }
}

/// The last `n` elements of `s` (all of them when `s` is shorter).
pub open spec fn last_n<T>(s: Seq<T>, n: nat) -> Seq<T> {
    if s.len() > n {
        s.subrange(s.len() - n, s.len() as int)
    } else {
        s
    }
}

/// A history that holds at most `max_len` samples, oldest first.
pub struct RollingBuffer<T> {
    items: VecDeque<T>,
    max_len: usize,
}

impl<T> View for RollingBuffer<T> {
    type V = Seq<T>;

    closed spec fn view(&self) -> Seq<T> {
        self.items@
    }
}

impl<T> RollingBuffer<T> {
    /// The most samples the history keeps.
    pub closed spec fn capacity(&self) -> nat {
        self.max_len as nat
    }

    /// The history never holds more than its capacity.
    #[verifier::type_invariant]
    spec fn within_capacity(&self) -> bool {
        self.items@.len() <= self.max_len
    }

    /// An empty history of capacity `max_len`.
    pub fn new(max_len: usize) -> (b: Self)
        ensures
            b@ == Seq::<T>::empty(),
            b.capacity() == max_len,
    {
        RollingBuffer { items: VecDeque::new(), max_len }
    }

    /// Appends a sample, dropping the oldest one once the history is over
    /// its capacity.
    pub fn push(&mut self, v: T)
        ensures
            final(self).capacity() == old(self).capacity(),
            final(self)@ == push_bounded(old(self)@, v, old(self).capacity()),
            final(self)@.len() <= final(self).capacity(),
    {
        proof {
            use_type_invariant(&*self);
        }
        let mut items = VecDeque::new();
        std::mem::swap(&mut items, &mut self.items);
        items.push_back(v);
        if items.len() > self.max_len {
            let _ = items.pop_front();
        }
        self.items = items;
    }

    /// Drops every sample.
    pub fn clear(&mut self)
        ensures
            final(self).capacity() == old(self).capacity(),
            final(self)@ == Seq::<T>::empty(),
    {
        self.items = VecDeque::new();
    }

    /// The number of samples held.
    pub fn len(&self) -> (n: usize)
        ensures
            n == self@.len(),
            n <= self.capacity(),
    {
        proof {
            use_type_invariant(self);
        }
        self.items.len()
    }

    /// Sample `i`, oldest first.
    pub fn get(&self, i: usize) -> (v: &T)
        requires
            i < self@.len(),
        ensures
            *v == self@[i as int],
    {
        &self.items[i]
    }

    /// The samples, oldest first.
    pub fn items(&self) -> (q: &VecDeque<T>)
        ensures
            q@ == self@,
    {
        &self.items
    }
}

/// Pushing any samples, one at a time, onto an empty history of capacity
/// `max_len` leaves exactly the last `max_len` of them, oldest first.
pub proof fn lemma_keeps_most_recent<T>(vals: Seq<T>, max_len: nat)
    ensures
        push_all(Seq::<T>::empty(), vals, max_len) == last_n(vals, max_len),
    decreases vals.len(),
{
    if vals.len() > 0 {
        let prev = vals.drop_last();
        lemma_keeps_most_recent(prev, max_len);
        let h = last_n(prev, max_len);
        let t = h.push(vals.last());
        if prev.len() > max_len {
            assert(t.subrange(1, t.len() as int) =~= last_n(vals, max_len));
        } else if t.len() > max_len {
            assert(t.subrange(1, t.len() as int) =~= last_n(vals, max_len));
        } else {
            assert(t =~= vals);
        }
    }
}

} // verus!
