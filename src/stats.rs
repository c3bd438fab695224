//! Running statistics (maximum, minimum, average) of a stream of readings.
//!
//! Readings are fixed-point values in hundredths of the measured unit.
use vstd::prelude::*;
use crate::compensation::trunc_div;

verus! {

/// Sum of the readings.
pub open spec fn seq_sum(s: Seq<i32>) -> int
    decreases s.len(),
{
    if s.len() == 0 {
        0
    } else {
        seq_sum(s.drop_last()) + s.last()
    }
}

/// Largest reading; 0 for no readings.
pub open spec fn seq_max(s: Seq<i32>) -> int
    decreases s.len(),
{
    if s.len() == 0 {
        0
    } else if s.len() == 1 {
        s[0] as int
    } else if seq_max(s.drop_last()) >= s.last() {
        seq_max(s.drop_last())
    } else {
        s.last() as int
    }
}

/// Smallest reading; 0 for no readings.
pub open spec fn seq_min(s: Seq<i32>) -> int
    decreases s.len(),
{
    if s.len() == 0 {
        0
    } else if s.len() == 1 {
        s[0] as int
    } else if seq_min(s.drop_last()) <= s.last() {
        seq_min(s.drop_last())
    } else {
        s.last() as int
    }
}

/// Most readings that one period can accumulate.
pub const MAX_READINGS: u16 = 65535;

/// Readings accumulated since the last reset.
pub struct Accumulated {
    max_value: i32,
    min_value: i32,
    sum: i64,
    num_of: u16,
    readings: Ghost<Seq<i32>>,
}

/// Maximum, minimum and average of one period's readings; all 0 when the
/// period had none. The average is rounded toward zero.
#[derive(Clone, Copy, Debug, PartialEq, Eq, Structural)]
pub struct Summary {
    pub max_value: i32,
    pub min_value: i32,
    pub ave_value: i32,
}

impl Summary {
    /// The summary of the readings held by `accum`.
    pub fn new(accum: &Accumulated) -> (r: Summary)
        requires
            accum.wf(),
        ensures
            r.max_value == seq_max(accum@),
            r.min_value == seq_min(accum@),
            accum@.len() == 0 ==> r.ave_value == 0,
            accum@.len() > 0 ==> r.ave_value == trunc_div(seq_sum(accum@), accum@.len() as int),
    {
        if accum.num_of > 0 {
            let n = accum.num_of as i64;
            let ave = if accum.sum >= 0 {
                accum.sum / n
            } else {
                -((-accum.sum) / n)
            };
            proof {
                lemma_max_min_bounds(accum@);
                lemma_average_in_range(accum.sum as int, n as int, seq_min(accum@), seq_max(accum@));
            }
            Summary { max_value: accum.max_value, min_value: accum.min_value, ave_value: ave as i32 }
        } else {
            Summary { max_value: 0, min_value: 0, ave_value: 0 }
        }
    }

    pub fn get_max(&self) -> (r: i32)
        ensures
            r == self.max_value,
    {
        self.max_value
    }

    pub fn get_min(&self) -> (r: i32)
        ensures
            r == self.min_value,
    {
        self.min_value
    }

    pub fn get_average(&self) -> (r: i32)
        ensures
            r == self.ave_value,
    {
        self.ave_value
    }
}

/// The average of a nonempty run of readings lies between its minimum and
/// maximum.
proof fn lemma_max_min_bounds(s: Seq<i32>)
    requires
        s.len() > 0,
    ensures
        seq_min(s) <= seq_max(s),
        i32::MIN <= seq_min(s),
        seq_max(s) <= i32::MAX,
        s.len() * seq_min(s) <= seq_sum(s) <= s.len() * seq_max(s),
    decreases s.len(),
{
    if s.len() > 1 {
        lemma_max_min_bounds(s.drop_last());
        let n = s.len() - 1;
        let lo = seq_min(s.drop_last());
        let hi = seq_max(s.drop_last());
        let rest = seq_sum(s.drop_last());
        let lo2 = seq_min(s);
        let hi2 = seq_max(s);
        assert(s.len() * lo2 <= seq_sum(s) <= s.len() * hi2) by (nonlinear_arith)
            requires
                n * lo <= rest <= n * hi,
                lo2 <= lo,
                lo2 <= s.last(),
                hi <= hi2,
                s.last() <= hi2,
                seq_sum(s) == rest + s.last(),
                s.len() == n + 1,
                n >= 1;
    } else {
        assert(seq_sum(s.drop_last()) == 0);
    }
}

/// An average rounded toward zero lies between the smallest and the
/// largest reading.
proof fn lemma_average_in_range(sum: int, n: int, lo: int, hi: int)
    requires
        n > 0,
        n * lo <= sum <= n * hi,
    ensures
        lo <= trunc_div(sum, n) <= hi,
{
    if sum >= 0 {
        vstd::arithmetic::div_mod::lemma_fundamental_div_mod(sum, n);
        let q = sum / n;
        let r = sum % n;
        assert(lo <= q <= hi) by (nonlinear_arith)
            requires sum == n * q + r, 0 <= r < n, n * lo <= sum <= n * hi, sum >= 0, n > 0;
    } else {
        vstd::arithmetic::div_mod::lemma_fundamental_div_mod(-sum, n);
        let q = (-sum) / n;
        let r = (-sum) % n;
        assert(lo <= -q <= hi) by (nonlinear_arith)
            requires -sum == n * q + r, 0 <= r < n, n * lo <= sum <= n * hi, sum < 0, n > 0;
    }
}

impl Accumulated {
    /// The readings accumulated since the last reset.
    pub closed spec fn view(&self) -> Seq<i32> {
        self.readings@
    }

    /// The fields hold the count, sum, maximum and minimum of the readings.
    pub closed spec fn wf(&self) -> bool {
        &&& self.num_of == self.readings@.len()
        &&& self.sum == seq_sum(self.readings@)
        &&& self.readings@.len() > 0 ==> self.max_value == seq_max(self.readings@)
        &&& self.readings@.len() > 0 ==> self.min_value == seq_min(self.readings@)
        &&& -0x80000000 * self.readings@.len() <= self.sum <= 0x80000000 * self.readings@.len()
    }

    /// No readings.
    pub fn new() -> (r: Accumulated)
        ensures
            r.wf(),
            r@ == Seq::<i32>::empty(),
    {
        Accumulated { max_value: 0, min_value: 0, sum: 0, num_of: 0, readings: Ghost(Seq::empty()) }
    }

    /// Drops the readings.
    pub fn reset(&mut self)
        requires
            old(self).wf(),
        ensures
            final(self).wf(),
            final(self)@ == Seq::<i32>::empty(),
    {
        self.num_of = 0;
        self.sum = 0;
        self.readings = Ghost(Seq::empty());
    }

    /// Adds a reading.
    pub fn add(&mut self, value: i32)
        requires
            old(self).wf(),
            old(self)@.len() < MAX_READINGS,
        ensures
            final(self).wf(),
            final(self)@ == old(self)@.push(value),
    {
        let ghost s = self.readings@;
        let ghost t = s.push(value);
        assert(t.drop_last() =~= s);
        if self.num_of > 0 {
            if value > self.max_value {
                self.max_value = value;
            } else if value < self.min_value {
                self.min_value = value;
            }
            proof {
                lemma_max_min_bounds(s);
            }
            self.num_of = self.num_of + 1;
            self.sum = self.sum + value as i64;
        } else {
            self.max_value = value;
            self.min_value = value;
            self.sum = value as i64;
            self.num_of = 1;
        }
        self.readings = Ghost(t);
    }

    /// The summary of the readings, which are then dropped.
    pub fn sample(&mut self) -> (r: Summary)
        requires
            old(self).wf(),
        ensures
            final(self).wf(),
            final(self)@ == Seq::<i32>::empty(),
            r == Summary::summary_of(old(self)@),
    {
        let result = Summary::new(&*self);
        self.reset();
        result
    }

    /// The largest reading, when there is one.
    pub fn max_value(&self) -> (r: i32)
        requires
            self.wf(),
        ensures
            self@.len() > 0 ==> r == seq_max(self@),
    {
        self.max_value
    }

    /// The smallest reading, when there is one.
    pub fn min_value(&self) -> (r: i32)
        requires
            self.wf(),
        ensures
            self@.len() > 0 ==> r == seq_min(self@),
    {
        self.min_value
    }

    /// The sum of the readings.
    pub fn sum(&self) -> (r: i64)
        requires
            self.wf(),
        ensures
            r == seq_sum(self@),
    {
        self.sum
    }

    /// How many readings were accumulated.
    pub fn len(&self) -> (r: u16)
        requires
            self.wf(),
        ensures
            r == self@.len(),
    {
        self.num_of
    }
}

impl Summary {
    /// The summary of a run of readings.
    pub open spec fn summary_of(s: Seq<i32>) -> Summary {
        Summary {
            max_value: seq_max(s) as i32,
            min_value: seq_min(s) as i32,
            ave_value: if s.len() == 0 { 0 } else { trunc_div(seq_sum(s), s.len() as int) as i32 },
        }
    }
}

} // verus!
