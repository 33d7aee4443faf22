//! Sparks the app wants in the air this frame, under a cap.
//!
//! Anything past the cap in one frame is dropped rather than wrapping over
//! itself, because a burst that overwrote its own head would come out as a
//! few survivors in random places. The first sparks asked for are the ones
//! that fly.

use vstd::prelude::*;

verus! {

/// How many sparks the CPU may queue in one frame.
pub const CPU_SPARKS: usize = 24_576;

/// The sparks queued this frame.
pub struct SparkQueue<T>(pub Vec<T>);

/// A queue with `items` offered to it in order: each is taken while the
/// queue is under the cap, and none after.
pub open spec fn capped<T>(q: Seq<T>, items: Seq<T>) -> Seq<T> {
    if q.len() >= CPU_SPARKS {
        q
    } else if items.len() <= CPU_SPARKS - q.len() {
        q + items
    } else {
        q + items.take(CPU_SPARKS - q.len())
    }
}

/// Where a frame's sparks go in the ring the GPU reads: `head` of them from
/// the cursor to the end of the ring, the `rest` from its start, and where
/// the cursor stands after.
#[derive(Clone, Copy, PartialEq, Eq, Debug, Structural)]
pub struct RingWrite {
    pub head: usize,
    pub rest: usize,
    pub next: usize,
}

/// Lay `n` sparks into the ring at `cursor`. The ring may wrap, and a wrap is
/// two writes rather than one that runs off the end of the CPU's half and
/// into the swarm's: the first never passes the end, and the second never
/// reaches the cursor it started from, so a frame never overwrites itself.
pub fn ring_writes(cursor: usize, n: usize) -> (w: RingWrite)
    requires
        cursor < CPU_SPARKS,
        n <= CPU_SPARKS,
    ensures
        w.head == if CPU_SPARKS - cursor < n { CPU_SPARKS - cursor } else { n as int },
        w.rest == n - w.head,
        w.next == (cursor + n) % (CPU_SPARKS as int),
        cursor + w.head <= CPU_SPARKS,
        w.rest <= cursor,
{
    let room = CPU_SPARKS - cursor;
    let head = if room < n { room } else { n };
    RingWrite { head, rest: n - head, next: (cursor + n) % CPU_SPARKS }
}

impl<T> SparkQueue<T> {
    /// Queue one spark, if there is room for it this frame.
    pub fn push(&mut self, s: T)
        ensures
            final(self).0@ == capped(old(self).0@, seq![s]),
    {
        if self.0.len() < CPU_SPARKS {
            self.0.push(s);
            assert(old(self).0@ + seq![s] =~= old(self).0@.push(s));
        }
    }

    /// Queue sparks in order, as many as there is room for this frame.
    pub fn extend(&mut self, items: Vec<T>)
        ensures
            final(self).0@ == capped(old(self).0@, items@),
    {
        let ghost all = items@;
        for s in it: items.into_iter()
            invariant
                it.seq() == all,
                self.0@ == capped(old(self).0@, all.take(it.index() as int)),
        {
            let ghost i = it.index() as int;
            proof {
                assert(all.take(i + 1) =~= all.take(i).push(s));
            }
            self.push(s);
            proof {
                let q = old(self).0@;
                let a = all.take(i);
                if q.len() < CPU_SPARKS {
                    if a.len() < CPU_SPARKS - q.len() {
                        assert(q + a.push(s) =~= (q + a).push(s));
                    } else if a.len() == CPU_SPARKS - q.len() {
                        assert(a.push(s).take(CPU_SPARKS - q.len()) =~= a);
                    } else {
                        assert(a.push(s).take(CPU_SPARKS - q.len()) =~= a.take(
                            CPU_SPARKS - q.len(),
                        ));
                    }
                }
            }
        }
        assert(all.take(all.len() as int) =~= all);
    }
}

} // verus!
