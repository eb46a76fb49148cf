//! Running statistics of a rail voltage: minimum, maximum and average of every reading taken
//! since start-up, as the compute power module reports them for its +24 V and +19 V rails.
use vstd::prelude::*;
use vstd::arithmetic::div_mod::lemma_div_is_ordered;
use vstd::arithmetic::mul::lemma_mul_inequality;

verus! {

/// Sum of a sequence of readings.
pub open spec fn seq_sum(s: Seq<u32>) -> int
    decreases s.len(),
{
    if s.len() == 0 {
        0
    } else {
        seq_sum(s.drop_last()) + s.last()
    }
}

/// Smallest of a non-empty sequence of readings.
pub open spec fn seq_min(s: Seq<u32>) -> int
    decreases s.len(),
{
    if s.len() <= 1 {
        s[0] as int
    } else {
        let m = seq_min(s.drop_last());
        if (s.last() as int) < m {
            s.last() as int
        } else {
            m
        }
    }
}

/// Largest of a non-empty sequence of readings.
pub open spec fn seq_max(s: Seq<u32>) -> int
    decreases s.len(),
{
    if s.len() <= 1 {
        s[0] as int
    } else {
        let m = seq_max(s.drop_last());
        if (s.last() as int) > m {
            s.last() as int
        } else {
            m
        }
    }
}

/// The smallest reading is a reading and bounds every reading from below; the largest
/// likewise from above.
pub proof fn lemma_extrema_bound_readings(s: Seq<u32>)
    requires
        s.len() >= 1,
    ensures
        forall|i: int| 0 <= i < s.len() ==> seq_min(s) <= #[trigger] s[i] && s[i] <= seq_max(s),
        exists|i: int| 0 <= i < s.len() && s[i] == seq_min(s),
        exists|j: int| 0 <= j < s.len() && s[j] == seq_max(s),
    decreases s.len(),
{
    if s.len() > 1 {
        let p = s.drop_last();
        lemma_extrema_bound_readings(p);
        assert forall|i: int| 0 <= i < s.len() implies seq_min(s) <= #[trigger] s[i] && s[i] <= seq_max(s) by {
            if i < s.len() - 1 {
                assert(s[i] == p[i]);
            }
        }
        let k = choose|k: int| 0 <= k < p.len() && p[k] == seq_min(p);
        let l = choose|l: int| 0 <= l < p.len() && p[l] == seq_max(p);
        assert(s[k] == p[k]);
        assert(s[l] == p[l]);
        if (s.last() as int) < seq_min(p) {
            assert(s[s.len() - 1] == seq_min(s));
        } else {
            assert(s[k] == seq_min(s));
        }
        if (s.last() as int) > seq_max(p) {
            assert(s[s.len() - 1] == seq_max(s));
        } else {
            assert(s[l] == seq_max(s));
        }
    } else {
        assert(s[0] == seq_min(s));
        assert(s[0] == seq_max(s));
    }
}

/// The sum of `n` readings lies between `n` times the smallest and `n` times the largest.
pub proof fn lemma_sum_between_extrema(s: Seq<u32>)
    requires
        s.len() >= 1,
    ensures
        s.len() * seq_min(s) <= seq_sum(s) <= s.len() * seq_max(s),
        0 <= seq_min(s) <= seq_max(s) <= u32::MAX,
    decreases s.len(),
{
    if s.len() == 1 {
        assert(s.drop_last().len() == 0);
        assert(seq_sum(s.drop_last()) == 0);
        assert(seq_sum(s) == s[0]);
    } else {
        let p = s.drop_last();
        lemma_sum_between_extrema(p);
        let n = p.len() as int;
        let lo = seq_min(s);
        let hi = seq_max(s);
        assert(lo <= seq_min(p));
        assert(seq_max(p) <= hi);
        lemma_mul_inequality(lo, seq_min(p), n);
        lemma_mul_inequality(seq_max(p), hi, n);
        assert(lo * n <= seq_sum(p) <= hi * n) by (nonlinear_arith)
            requires
                n * seq_min(p) <= seq_sum(p) <= n * seq_max(p),
                lo * n <= seq_min(p) * n,
                seq_max(p) * n <= hi * n;
        assert(lo <= s.last() <= hi);
        assert((n + 1) * lo <= seq_sum(s) <= (n + 1) * hi) by (nonlinear_arith)
            requires
                lo * n <= seq_sum(p) <= hi * n,
                lo <= s.last() <= hi,
                seq_sum(s) == seq_sum(p) + s.last();
    }
}

/// The average of the readings lies between the smallest and the largest reading.
pub proof fn lemma_average_between_extrema(s: Seq<u32>)
    requires
        s.len() >= 1,
    ensures
        seq_min(s) <= seq_sum(s) / (s.len() as int) <= seq_max(s),
        0 <= seq_min(s) <= seq_max(s) <= u32::MAX,
{
    lemma_sum_between_extrema(s);
    let n = s.len() as int;
    lemma_div_is_ordered(n * seq_min(s), seq_sum(s), n);
    lemma_div_is_ordered(seq_sum(s), n * seq_max(s), n);
    assert(n * seq_min(s) / n == seq_min(s)) by (nonlinear_arith)
        requires n > 0;
    assert(n * seq_max(s) / n == seq_max(s)) by (nonlinear_arith)
        requires n > 0;
}

/// The sum of no readings is zero, and recording a reading adds it to the sum; likewise the
/// extrema of one reading are that reading, and recording one more takes the smaller (or
/// larger) of the old extremum and the new reading.
pub proof fn lemma_running_law(s: Seq<u32>, v: u32)
    ensures
        seq_sum(Seq::<u32>::empty()) == 0,
        seq_sum(s.push(v)) == seq_sum(s) + v,
        seq_min(seq![v]) == v,
        seq_max(seq![v]) == v,
        s.len() >= 1 ==> seq_min(s.push(v)) == (if (v as int) < seq_min(s) { v as int } else { seq_min(s) }),
        s.len() >= 1 ==> seq_max(s.push(v)) == (if (v as int) > seq_max(s) { v as int } else { seq_max(s) }),
{
    assert(s.push(v).drop_last() =~= s);
}

/// Running minimum, maximum and sum of a rail's voltage readings, in centivolts.
pub struct RailStats {
    min: u64,
    max: u64,
    sum: u64,
    num_samples: u64,
    readings: Ghost<Seq<u32>>,
}

impl RailStats {
    #[verifier::type_invariant]
    spec fn consistent(self) -> bool {
        &&& self.readings@.len() >= 1
        &&& self.num_samples == self.readings@.len()
        &&& self.sum == seq_sum(self.readings@)
        &&& self.min == seq_min(self.readings@)
        &&& self.max == seq_max(self.readings@)
    }

    /// Every reading recorded so far, oldest first.
    pub closed spec fn readings(self) -> Seq<u32> {
        self.readings@
    }

    /// Starts the statistics with a first reading.
    pub fn new(first_centivolts: u32) -> (st: Self)
        ensures
            st.readings() == seq![first_centivolts],
    {
        let ghost r = seq![first_centivolts];
        assert(r.drop_last().len() == 0);
        assert(seq_sum(r.drop_last()) == 0);
        assert(seq_sum(r) == first_centivolts);
        RailStats {
            min: first_centivolts as u64,
            max: first_centivolts as u64,
            sum: first_centivolts as u64,
            num_samples: 1,
            readings: Ghost(r),
        }
    }

    /// Whether one more reading can be added without the running sum or count leaving 64 bits.
    pub fn can_record(&self, centivolts: u32) -> (ok: bool)
        ensures
            ok == (seq_sum(self.readings()) + centivolts <= u64::MAX && self.readings().len() + 1 <= u64::MAX),
    {
        proof {
            use_type_invariant(self);
        }
        self.sum <= u64::MAX - centivolts as u64 && self.num_samples < u64::MAX
    }

    /// Adds one reading.
    pub fn record(&mut self, centivolts: u32)
        requires
            seq_sum(old(self).readings()) + centivolts <= u64::MAX,
            old(self).readings().len() + 1 <= u64::MAX,
        ensures
            final(self).readings() == old(self).readings().push(centivolts),
    {
        proof {
            use_type_invariant(&*self);
        }
        let v = centivolts as u64;
        let ghost r = self.readings@.push(centivolts);
        assert(r.drop_last() =~= self.readings@);
        let new_min = if v < self.min { v } else { self.min };
        let new_max = if v > self.max { v } else { self.max };
        *self = RailStats {
            min: new_min,
            max: new_max,
            sum: self.sum + v,
            num_samples: self.num_samples + 1,
            readings: Ghost(r),
        };
    }

    /// Number of readings recorded.
    pub fn num_samples(&self) -> (n: u64)
        ensures
            n == self.readings().len(),
            n >= 1,
    {
        proof {
            use_type_invariant(self);
        }
        self.num_samples
    }

    /// Smallest reading recorded.
    pub fn min(&self) -> (m: u64)
        ensures
            m == seq_min(self.readings()),
    {
        proof {
            use_type_invariant(self);
        }
        self.min
    }

    /// Largest reading recorded.
    pub fn max(&self) -> (m: u64)
        ensures
            m == seq_max(self.readings()),
    {
        proof {
            use_type_invariant(self);
        }
        self.max
    }

    /// Sum of all readings recorded.
    pub fn sum(&self) -> (s: u64)
        ensures
            s == seq_sum(self.readings()),
    {
        proof {
            use_type_invariant(self);
        }
        self.sum
    }

    /// Average of all readings recorded, rounded down.
    pub fn average(&self) -> (avg: u32)
        ensures
            avg == seq_sum(self.readings()) / (self.readings().len() as int),
            seq_min(self.readings()) <= avg <= seq_max(self.readings()),
    {
        proof {
            use_type_invariant(self);
            lemma_average_between_extrema(self.readings@);
        }
        (self.sum / self.num_samples) as u32
    }
}

/// Splits a value in centivolts into whole volts and the remaining hundredths, for display.
pub fn split_centivolts(centivolts: u64) -> (parts: (u64, u64))
    ensures
        parts.0 == centivolts / 100,
        parts.1 == centivolts % 100,
        parts.0 * 100 + parts.1 == centivolts,
        parts.1 < 100,
{
    (centivolts / 100, centivolts % 100)
}

} // verus!
