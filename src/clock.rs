//! A clock that ticks at a fixed period aligned to the hour.
use vstd::prelude::*;
use chrono::Timelike;

verus! {

/// Latest timestamp that chrono's `DateTime<Utc>` can hold (the last second
/// of year 262142).
pub const MAX_UTC_TIMESTAMP: i64 = 8210266876799;

/// Relies on chrono's `Utc::now`, `DateTime::timestamp` and
/// `Timelike::minute` / `Timelike::second`: the current UTC time as seconds
/// since the Unix epoch, with the minute and the second within the hour.
/// `Utc::now` builds its value from the time since the epoch (it panics
/// before the epoch, and past the last date chrono holds); in UTC the
/// minute and second are those of the timestamp's second of the day.
#[verifier::external_body]
fn utc_now() -> (r: (i64, u32, u32))
    ensures
        0 <= r.0 <= MAX_UTC_TIMESTAMP,
        r.1 == (r.0 / 60) % 60,
        r.2 == r.0 % 60,
{
    let now = chrono::Utc::now();
    (now.timestamp(), now.minute(), now.second())
}

/// A period in seconds that divides an hour.
pub open spec fn period_divides_hour(p: int) -> bool {
    0 < p && 3600int % p == 0
}

/// The tick nearest to `ts`, whose minute and second within the hour are
/// given: ticks fall on multiples of `period` seconds past the hour, and a
/// time exactly between two ticks goes to the earlier one.
pub open spec fn nearest_tick(ts: int, minute: int, second: int, period: int) -> int {
    let into = (second + 60 * minute) % period;
    if into > period / 2 {
        ts - (into - period)
    } else {
        ts - into
    }
}

/// Seconds from a time with the given minute and second to the next tick;
/// a time on a tick waits a whole period.
pub open spec fn secs_to_tick(minute: int, second: int, period: int) -> int {
    period - (second + 60 * minute) % period
}

proof fn lemma_period_at_most_hour(p: int)
    requires
        period_divides_hour(p),
    ensures
        p <= 3600,
{
    if p > 3600 {
        vstd::arithmetic::div_mod::lemma_small_mod(3600, p as nat);
    }
}

/// The tick nearest to the timestamp `ts`.
pub open spec fn tick_of(ts: int, period: int) -> int {
    nearest_tick(ts, (ts / 60) % 60, ts % 60, period)
}

/// Seconds from the timestamp `ts` to the next tick.
pub open spec fn delay_of(ts: int, period: int) -> int {
    secs_to_tick((ts / 60) % 60, ts % 60, period)
}

/// For a timestamp, the seconds into the hour taken modulo a period that
/// divides the hour are the timestamp modulo the period; so the nearest tick
/// and the next tick are multiples of the period.
proof fn lemma_tick_of_timestamp(ts: int, p: int)
    requires
        0 <= ts,
        period_divides_hour(p),
    ensures
        (ts % 60 + 60 * ((ts / 60) % 60)) % p == ts % p,
        nearest_tick(ts, (ts / 60) % 60, ts % 60, p) % p == 0,
        -(p / 2) <= nearest_tick(ts, (ts / 60) % 60, ts % 60, p) - ts <= p / 2,
        (ts + secs_to_tick((ts / 60) % 60, ts % 60, p)) % p == 0,
{
    vstd::arithmetic::div_mod::lemma_breakdown(ts, 60, 60);
    vstd::arithmetic::div_mod::lemma_fundamental_div_mod(3600int, p);
    let k = 3600int / p;
    assert(p * k == 3600);
    assert(k > 0) by (nonlinear_arith)
        requires p * k == 3600, p > 0;
    vstd::arithmetic::div_mod::lemma_mod_mod(ts, p, k);
    let into = ts % p;
    vstd::arithmetic::div_mod::lemma_fundamental_div_mod(ts, p);
    vstd::arithmetic::div_mod::lemma_mod_bound(ts, p);
    let q = ts / p;
    vstd::arithmetic::div_mod::lemma_mod_multiples_basic(q, p);
    vstd::arithmetic::div_mod::lemma_mod_multiples_basic(q + 1, p);
    assert(ts - into == q * p) by (nonlinear_arith)
        requires ts == p * q + into;
    assert(ts - into + p == (q + 1) * p) by (nonlinear_arith)
        requires ts == p * q + into;
}

pub struct Clock {
    period_in_secs: i32,
}

impl Clock {
    pub closed spec fn period(&self) -> int {
        self.period_in_secs as int
    }

    /// A clock ticking every `period_in_secs` seconds; the period must
    /// divide an hour.
    pub fn new(period_in_secs: i32) -> (r: Clock)
        requires
            period_divides_hour(period_in_secs as int),
        ensures
            r.period() == period_in_secs,
    {
        Clock { period_in_secs }
    }

    /// Checks the period before making a clock: `None` when it does not
    /// divide an hour.
    pub fn try_new(period_in_secs: i32) -> (r: Option<Clock>)
        ensures
            period_divides_hour(period_in_secs as int) <==> r is Some,
            r matches Some(c) ==> c.period() == period_in_secs,
    {
        if period_in_secs > 0 && 3600 % period_in_secs == 0 {
            Some(Clock { period_in_secs })
        } else {
            None
        }
    }

    /// The tick nearest to the time `ts` with the given minute and second
    /// within the hour.
    pub fn nearest_tick_at(&self, ts: i64, minute: u32, second: u32) -> (r: i64)
        requires
            period_divides_hour(self.period()),
            minute < 60,
            second < 60,
            i64::MIN + 3600 <= ts <= i64::MAX - 3600,
        ensures
            r == nearest_tick(ts as int, minute as int, second as int, self.period()),
    {
        proof {
            lemma_period_at_most_hour(self.period());
        }
        let secs: i32 = (second + 60 * minute) as i32;
        let mut secs_adj: i32 = secs % self.period_in_secs;
        if secs_adj > self.period_in_secs / 2 {
            secs_adj = secs_adj - self.period_in_secs;
        }
        ts - secs_adj as i64
    }

    /// Seconds from the time with the given minute and second to the next
    /// tick.
    pub fn secs_to_tick_at(&self, minute: u32, second: u32) -> (r: u32)
        requires
            period_divides_hour(self.period()),
            minute < 60,
            second < 60,
        ensures
            r == secs_to_tick(minute as int, second as int, self.period()),
            0 < r <= self.period(),
    {
        let secs: i32 = (second + 60 * minute) as i32;
        (self.period_in_secs - secs % self.period_in_secs) as u32
    }

    /// The tick nearest to now, as a Unix timestamp: a multiple of the
    /// period within half a period of the current time.
    pub fn get_nearest_tick(&self) -> (r: i64)
        requires
            period_divides_hour(self.period()),
        ensures
            exists|ts: int|
                0 <= ts <= MAX_UTC_TIMESTAMP
                && r == #[trigger] tick_of(ts, self.period())
                && (r as int) % self.period() == 0
                && -(self.period() / 2) <= r - ts <= self.period() / 2,
    {
        let (ts, minute, second) = utc_now();
        proof {
            vstd::arithmetic::div_mod::lemma_mod_bound(ts as int, 60);
            vstd::arithmetic::div_mod::lemma_mod_bound(ts as int / 60, 60);
        }
        let r = self.nearest_tick_at(ts, minute, second);
        proof {
            lemma_tick_of_timestamp(ts as int, self.period());
            assert(r == tick_of(ts as int, self.period()));
        }
        r
    }

    /// Seconds from now to the next tick: the current time plus the result
    /// is a multiple of the period.
    pub fn secs_to_next_tick(&self) -> (r: u32)
        requires
            period_divides_hour(self.period()),
        ensures
            0 < r <= self.period(),
            exists|ts: int|
                0 <= ts <= MAX_UTC_TIMESTAMP
                && r == #[trigger] delay_of(ts, self.period())
                && (ts + r) % self.period() == 0,
    {
        let (ts, minute, second) = utc_now();
        proof {
            vstd::arithmetic::div_mod::lemma_mod_bound(ts as int, 60);
            vstd::arithmetic::div_mod::lemma_mod_bound(ts as int / 60, 60);
        }
        let r = self.secs_to_tick_at(minute, second);
        proof {
            lemma_tick_of_timestamp(ts as int, self.period());
            assert(r == delay_of(ts as int, self.period()));
        }
        r
    }
}

} // verus!
