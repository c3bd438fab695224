//! Wind speed accumulation between samples.
use vstd::prelude::*;
use crate::stats::{Accumulated, Summary, MAX_READINGS};

verus! {

/// Wind speed readings (hundredths of a metre per second) from the device
/// named `dev_name`, accumulated until the next sample.
pub struct Wind {
    pub speed: Accumulated,
    pub dev_name: String,
}

impl Wind {
    pub open spec fn wf(&self) -> bool {
        self.speed.wf()
    }

    /// A wind sensor reading from `dev_name`, with no readings yet.
    pub fn new(dev_name: &str) -> (r: Wind)
        ensures
            r.wf(),
            r.dev_name@ == dev_name@,
            r.speed@ == Seq::<i32>::empty(),
    {
        Wind { speed: Accumulated::new(), dev_name: dev_name.to_owned() }
    }

    /// Points the sensor at `dev_name` and drops the readings.
    pub fn init(&mut self, dev_name: &str)
        requires
            old(self).wf(),
        ensures
            final(self).wf(),
            final(self).dev_name@ == dev_name@,
            final(self).speed@ == Seq::<i32>::empty(),
    {
        self.dev_name = dev_name.to_owned();
        self.reset();
    }

    /// Drops the readings.
    pub fn reset(&mut self)
        requires
            old(self).wf(),
        ensures
            final(self).wf(),
            final(self).dev_name == old(self).dev_name,
            final(self).speed@ == Seq::<i32>::empty(),
    {
        self.speed.reset();
    }

    /// Adds a reading; a reading beyond the most that one period holds is
    /// dropped, and the result says whether the reading was kept.
    pub fn process(&mut self, speed: i32) -> (r: bool)
        requires
            old(self).wf(),
        ensures
            final(self).wf(),
            final(self).dev_name == old(self).dev_name,
            r == (old(self).speed@.len() < MAX_READINGS),
            r ==> final(self).speed@ == old(self).speed@.push(speed),
            !r ==> final(self).speed@ == old(self).speed@,
    {
        if self.speed.len() < MAX_READINGS {
            self.speed.add(speed);
            true
        } else {
            false
        }
    }

    /// The summary of the readings since the last sample, which are then
    /// dropped.
    pub fn sample(&mut self) -> (r: Summary)
        requires
            old(self).wf(),
        ensures
            final(self).wf(),
            final(self).dev_name == old(self).dev_name,
            final(self).speed@ == Seq::<i32>::empty(),
            r == Summary::summary_of(old(self).speed@),
    {
        self.speed.sample()
    }
}

} // verus!
