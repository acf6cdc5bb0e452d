//! Fixed-length sliding-window histories for the throughput charts.

use vstd::prelude::*;

verus! {

/// A fixed-length sliding window of `u64` samples, most recent first.
///
/// The window always holds exactly 300 samples — it starts pre-filled
/// with zeros — and recording a new sample evicts the oldest. It is kept
/// as a circular buffer, so recording is constant-time rather than a
/// linear shift.
#[derive(Clone, Debug)]
pub struct History {
    buf: Vec<u64>,
    head: usize,
}

impl View for History {
    type V = Seq<u64>;

    /// The samples, most recent first.
    closed spec fn view(&self) -> Seq<u64> {
        Seq::new(
            self.buf@.len(),
            |i: int| self.buf@[(self.head + i) % (self.buf@.len() as int)],
        )
    }
}

impl History {
    /// The window is in its proper shape: a 300-slot circular buffer
    /// with its cursor inside it.
    pub closed spec fn wf(&self) -> bool {
        self.buf@.len() == 300 && self.head < 300
    }

    /// A window pre-filled with 300 zero samples.
    pub fn new() -> (r: History)
        ensures
            r.wf(),
            r@ == Seq::new(300, |i: int| 0u64),
    {
        let r = History { buf: vec![0u64; 300], head: 0 };
        proof {
            assert(r@ =~= Seq::new(300, |i: int| 0u64));
        }
        r
    }

    /// Records one sample at the front of the window and evicts the
    /// oldest one: a true sliding window, never a growing list.
    pub fn record(&mut self, sample: u64)
        requires
            old(self).wf(),
        ensures
            final(self).wf(),
            final(self)@ == seq![sample] + old(self)@.take(299),
    {
        let h: usize = if self.head == 0 {
            299
        } else {
            self.head - 1
        };
        self.head = h;
        self.buf[h] = sample;
        proof {
            let prev = old(self)@;
            let cur = self@;
            assert forall|i: int| 0 <= i < 300 implies cur[i] == (seq![sample]
                + prev.take(299))[i] by {
                if i == 0 {
                    assert(cur[0] == self.buf@[(h + 0) % 300]);
                } else {
                    assert((h + i) % 300 == (old(self).head + (i - 1)) % 300);
                    assert((h + i) % 300 != h);
                }
            }
            assert(cur =~= seq![sample] + prev.take(299));
        }
    }

    /// The samples as a plain vector, most recent first, for chart
    /// renderers.
    pub fn to_vec(&self) -> (r: Vec<u64>)
        requires
            self.wf(),
        ensures
            r@ == self@,
    {
        let mut r: Vec<u64> = Vec::new();
        let mut i: usize = 0;
        while i < 300
            invariant
                self.wf(),
                i <= 300,
                r@.len() == i,
                forall|j: int| 0 <= j < i ==> r@[j] == self@[j],
            decreases 300 - i,
        {
            let idx: usize = (self.head + i) % 300;
            r.push(self.buf[idx]);
            i += 1;
        }
        proof {
            assert(r@ =~= self@);
        }
        r
    }
}

/// Ring-buffer invariant: a well-formed window holds exactly 300
/// samples, before any refresh and after any number of them.
pub proof fn lemma_history_len(h: &History)
    requires
        h.wf(),
    ensures
        h@.len() == 300,
{
}

/// Sliding-window law: after a sample `x` is recorded over a full
/// window, the newest sample is `x`, every older sample moved one slot
/// back, the oldest was dropped, and the length is unchanged.
pub proof fn lemma_sliding_window(prev: Seq<u64>, cur: Seq<u64>, x: u64)
    requires
        prev.len() == 300,
        cur == seq![x] + prev.take(299),
    ensures
        cur.len() == 300,
        cur[0] == x,
        forall|i: int| 1 <= i < 300 ==> cur[i] == prev[i - 1],
{
}

} // verus!
