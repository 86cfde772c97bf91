use vstd::prelude::*;

verus! {

/// Longest frame time handed on, in microseconds (0.1 s): longer pauses are
/// cut to it so that one step never integrates too far.
pub const DELTA_TIME_MAX: u64 = 100_000;
/// Millionths of a 60 Hz tick in one microsecond.
pub const TICKS_PER_SECOND: u64 = 60;

/// Sum of a sequence of frame times.
pub open spec fn seq_sum(s: Seq<u64>) -> int
    decreases s.len(),
{
    if s.len() == 0 {
        0
    } else {
        seq_sum(s.drop_last()) + s.last()
    }
}

/// The frame time handed on for a measured one.
pub open spec fn capped(delta: int) -> int {
    if delta > DELTA_TIME_MAX {
        DELTA_TIME_MAX as int
    } else {
        delta
    }
}

/// A frame time of `delta` microseconds in millionths of a 60 Hz tick.
pub fn adjusted_dt(delta: u64) -> (r: u64)
    requires
        delta <= DELTA_TIME_MAX,
    ensures
        r == delta * TICKS_PER_SECOND,
{
    delta * TICKS_PER_SECOND
}

proof fn lemma_sum_update(s: Seq<u64>, i: int, v: u64)
    requires
        0 <= i < s.len(),
    ensures
        seq_sum(s.update(i, v)) == seq_sum(s) - s[i] + v,
    decreases s.len(),
{
    let t = s.update(i, v);
    if i == s.len() - 1 {
        assert(t.drop_last() =~= s.drop_last());
    } else {
        lemma_sum_update(s.drop_last(), i, v);
        assert(t.drop_last() =~= s.drop_last().update(i, v));
    }
}

proof fn lemma_sum_bound(s: Seq<u64>)
    requires
        forall|j: int| 0 <= j < s.len() ==> s[j] <= DELTA_TIME_MAX,
    ensures
        0 <= seq_sum(s) <= s.len() * DELTA_TIME_MAX,
    decreases s.len(),
{
    if s.len() > 0 {
        lemma_sum_bound(s.drop_last());
    }
}

proof fn lemma_sum_repeat(n: nat, v: u64)
    ensures
        seq_sum(Seq::new(n, |_j: int| v)) == n * v,
    decreases n,
{
    if n > 0 {
        lemma_sum_repeat((n - 1) as nat, v);
        assert(Seq::new(n, |_j: int| v).drop_last() =~= Seq::new((n - 1) as nat, |_j: int| v));
        assert(Seq::new(n, |_j: int| v).last() == v);
        let m = (n - 1) as nat;
        assert(m * v + v == n * v) by (nonlinear_arith)
            requires
                m == n - 1,
        ;
        assert(seq_sum(Seq::new(n, |_j: int| v)) == seq_sum(Seq::new(m, |_j: int| v)) + v);
        assert(seq_sum(Seq::new(m, |_j: int| v)) == m * v);
    } else {
        assert(Seq::new(n, |_j: int| v).len() == 0);
    }
}

/// The last few frame times in a ring, with their running sum.
pub struct FramerateCounter {
    buffer: Vec<u64>,
    buffer_pos: usize,
    buffer_sum: u64,
}

impl FramerateCounter {
    /// The frame times kept, oldest position first.
    pub closed spec fn window(&self) -> Seq<u64> {
        self.buffer@
    }

    /// The position that the next frame time overwrites.
    pub closed spec fn next_slot(&self) -> int {
        self.buffer_pos as int
    }

    pub closed spec fn wf(&self) -> bool {
        &&& self.buffer@.len() > 0
        &&& self.buffer@.len() <= 1_000_000
        &&& self.buffer_pos < self.buffer@.len()
        &&& forall|j: int| 0 <= j < self.buffer@.len() ==> self.buffer@[j] <= DELTA_TIME_MAX
        &&& self.buffer_sum == seq_sum(self.buffer@)
    }

    /// A ring of `buffer_size` frames, each taken to be as long as allowed.
    pub fn new(buffer_size: usize) -> (r: FramerateCounter)
        requires
            0 < buffer_size <= 1_000_000,
        ensures
            r.wf(),
            r.window() == Seq::new(buffer_size as nat, |_j: int| DELTA_TIME_MAX),
            r.next_slot() == 0,
    {
        let mut buffer: Vec<u64> = Vec::new();
        let mut i: usize = 0;
        while i < buffer_size
            invariant
                i <= buffer_size,
                buffer@ == Seq::new(i as nat, |_j: int| DELTA_TIME_MAX),
            decreases buffer_size - i,
        {
            buffer.push(DELTA_TIME_MAX);
            i = i + 1;
            assert(buffer@ =~= Seq::new(i as nat, |_j: int| DELTA_TIME_MAX));
        }
        proof {
            lemma_sum_repeat(buffer_size as nat, DELTA_TIME_MAX);
            assert(buffer_size * DELTA_TIME_MAX <= 100_000_000_000) by (nonlinear_arith)
                requires
                    buffer_size <= 1_000_000,
            ;
        }
        FramerateCounter {
            buffer,
            buffer_pos: 0,
            buffer_sum: (buffer_size as u64) * DELTA_TIME_MAX,
        }
    }

    /// Records a measured frame time (microseconds) and returns it, cut to
    /// `DELTA_TIME_MAX`; the oldest entry of the ring gives way.
    pub fn tick(&mut self, delta: u64) -> (r: u64)
        requires
            old(self).wf(),
        ensures
            final(self).wf(),
            r == capped(delta as int),
            0 <= old(self).next_slot() < old(self).window().len(),
            final(self).window() == old(self).window().update(old(self).next_slot(), r),
            final(self).next_slot() == (old(self).next_slot() + 1) % (old(self).window().len() as int),
    {
        let d = if delta > DELTA_TIME_MAX {
            DELTA_TIME_MAX
        } else {
            delta
        };
        let pos = self.buffer_pos;
        let old_val = self.buffer[pos];
        proof {
            lemma_sum_update(self.buffer@, pos as int, d);
            lemma_sum_update(self.buffer@, pos as int, 0);
            lemma_sum_bound(self.buffer@.update(pos as int, 0));
            lemma_sum_bound(self.buffer@.update(pos as int, d));
            assert(self.buffer@.len() * DELTA_TIME_MAX <= 100_000_000_000) by (nonlinear_arith)
                requires
                    self.buffer@.len() <= 1_000_000,
            ;
        }
        self.buffer.set(pos, d);
        self.buffer_sum = self.buffer_sum - old_val + d;
        self.buffer_pos = if pos + 1 < self.buffer.len() {
            pos + 1
        } else {
            0
        };
        assert(self.buffer@ == old(self).buffer@.update(pos as int, d));
        proof {
            let n = self.buffer@.len() as int;
            if pos + 1 < n {
                assert((pos + 1) % n == pos + 1) by (nonlinear_arith)
                    requires
                        0 <= pos + 1 < n,
                ;
            } else {
                assert((pos + 1) % n == 0) by (nonlinear_arith)
                    requires
                        pos + 1 == n,
                        n > 0,
                ;
            }
        }
        d
    }

    /// Mean frame rate over the ring, in thousandths of a frame per second;
    /// `None` while the frames kept took no time at all.
    pub fn fps(&self) -> (r: Option<u64>)
        requires
            self.wf(),
        ensures
            seq_sum(self.window()) == 0 ==> r is None,
            seq_sum(self.window()) > 0 ==> r == Some(
                ((self.window().len() as int) * 1_000_000_000 / seq_sum(self.window())) as u64,
            ),
    {
        if self.buffer_sum == 0 {
            None
        } else {
            let n = self.buffer.len() as u64;
            proof {
                assert((self.buffer@.len() as int) * 1_000_000_000 / (self.buffer_sum as int)
                    <= self.buffer@.len() * 1_000_000_000) by (nonlinear_arith)
                    requires
                        self.buffer_sum >= 1,
                        self.buffer@.len() >= 0,
                ;
            }
            Some(n * 1_000_000_000 / self.buffer_sum)
        }
    }
}

} // verus!
