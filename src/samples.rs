use vstd::prelude::*;

verus! {

/// One reading of the sensor.
#[derive(Debug, Clone, Copy, PartialEq, Eq, Structural)]
pub struct EMGSample {
    /// Timestamp in microseconds.
    pub time: i64,
    /// Activation in thousandths.
    pub emg: i32,
}

/// What one tick of the control loop leaves behind.
#[derive(Debug, Clone, Copy, PartialEq, Eq, Structural)]
pub struct EMGOutput {
    /// Timestamp of the sample that drove the tick, in microseconds.
    pub time: i64,
    /// Activation of that sample, in thousandths.
    pub emg: i32,
    /// Left joint angle after the simulation step, in millionths of a radian.
    pub left: i64,
    /// Right joint angle after the simulation step, in millionths of a radian.
    pub right: i64,
}

/// Hands out a fixed list of samples in order.
pub struct EMGReader {
    pub samples: Vec<EMGSample>,
    pub index: usize,
}

impl EMGReader {
    /// A reader positioned at the first of `samples`.
    pub fn from_samples(samples: Vec<EMGSample>) -> (r: Self)
        ensures
            r.samples@ == samples@,
            r.index == 0,
    {
        EMGReader { samples, index: 0 }
    }

    /// The sample at the current position, which then moves on by one; `None`, with nothing
    /// changed, once every sample has been handed out.
    pub fn next_sample(&mut self) -> (r: Option<EMGSample>)
        ensures
            final(self).samples@ == old(self).samples@,
            old(self).index < old(self).samples@.len() ==> {
                &&& r == Some(old(self).samples@[old(self).index as int])
                &&& final(self).index == old(self).index + 1
            },
            old(self).index >= old(self).samples@.len() ==> {
                &&& r is None
                &&& final(self).index == old(self).index
            },
    {
        if self.index < self.samples.len() {
            let sample = self.samples[self.index];
            self.index = self.index + 1;
            Some(sample)
        } else {
            None
        }
    }
}

} // verus!
