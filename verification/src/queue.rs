//! Ordered deferred-work buffers. Producers on any thread append; the
//! designated presentation thread takes the whole buffer once per tick and
//! delivers every entry in the original order. The unverified shell wraps a
//! queue in a mutex and skips a tick when the lock is contended; entries
//! then stay buffered, so nothing is ever lost or delivered twice.

use vstd::prelude::*;

verus! {

/// A FIFO buffer of deferred work items.
pub struct DeferredQueue<T> {
    items: Vec<T>,
}

impl<T> DeferredQueue<T> {
    /// The buffered entries, oldest first.
    pub closed spec fn entries(&self) -> Seq<T> {
        self.items@
    }

    pub fn new() -> (q: Self)
        ensures
            q.entries() == Seq::<T>::empty(),
    {
        DeferredQueue { items: Vec::new() }
    }

    /// Append an entry; never fails, never reorders what is already queued.
    pub fn push(&mut self, v: T)
        ensures
            final(self).entries() == old(self).entries().push(v),
    {
        self.items.push(v);
    }

    pub fn len(&self) -> (n: usize)
        ensures
            n == self.entries().len(),
    {
        self.items.len()
    }

    /// Atomically take the whole buffer, leaving the queue empty. The
    /// result holds every pushed entry exactly once, in push order, so a
    /// drain-and-deliver loop over it delivers exactly once.
    pub fn drain(&mut self) -> (out: Vec<T>)
        ensures
            out@ == old(self).entries(),
            final(self).entries() == Seq::<T>::empty(),
    {
        let mut out: Vec<T> = Vec::new();
        core::mem::swap(&mut out, &mut self.items);
        out
    }
}

/// The entries of `s` that were pushed by producer `p`, in buffer order,
/// where each buffered entry is tagged with the producer that pushed it.
pub open spec fn of_producer<T>(s: Seq<(int, T)>, p: int) -> Seq<T>
    decreases s.len(),
{
    if s.len() == 0 {
        Seq::<T>::empty()
    } else {
        let rest = of_producer(s.drop_last(), p);
        if s.last().0 == p {
            rest.push(s.last().1)
        } else {
            rest
        }
    }
}

/// One interleaved push seen through a single producer's eyes: pushing an
/// entry of producer `p` extends `p`'s subsequence by exactly that entry,
/// and a push by any other producer leaves `p`'s subsequence untouched.
pub proof fn lemma_of_producer_push<T>(s: Seq<(int, T)>, e: (int, T), p: int)
    ensures
        of_producer(s.push(e), p) == (if e.0 == p {
            of_producer(s, p).push(e.1)
        } else {
            of_producer(s, p)
        }),
{
    assert(s.push(e).drop_last() =~= s);
    assert(s.push(e).last() == e);
}

/// For every interleaving of pushes from any number of producers, the
/// buffer that `drain` hands back contains, for each producer, exactly the
/// entries that producer pushed, in the relative order it pushed them:
/// splitting the buffer at any point splits each producer's subsequence the
/// same way.
pub proof fn lemma_of_producer_concat<T>(s1: Seq<(int, T)>, s2: Seq<(int, T)>, p: int)
    ensures
        of_producer(s1 + s2, p) == of_producer(s1, p) + of_producer(s2, p),
    decreases s2.len(),
{
    if s2.len() == 0 {
        assert(s1 + s2 =~= s1);
        assert(of_producer(s1, p) + of_producer(s2, p) =~= of_producer(s1, p));
    } else {
        let s2h = s2.drop_last();
        lemma_of_producer_concat(s1, s2h, p);
        assert((s1 + s2).drop_last() =~= s1 + s2h);
        assert((s1 + s2).last() == s2.last());
        if s2.last().0 == p {
            assert(of_producer(s1, p) + of_producer(s2, p) =~= (of_producer(s1, p)
                + of_producer(s2h, p)).push(s2.last().1));
        } else {
            assert(of_producer(s1, p) + of_producer(s2, p) =~= of_producer(s1, p) + of_producer(
                s2h,
                p,
            ));
        }
    }
}

} // verus!
