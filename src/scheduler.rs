use vstd::prelude::*;

verus! {

/// Shortest gap, in milliseconds, between two accepted ticks: `1000 / 60`, rounded down.
pub const TIME_SLICE: i64 = 16;

/// A sample `t` is accepted when at least `TIME_SLICE` has passed since the last tick.
pub open spec fn due(last: int, t: int) -> bool {
    t - last >= TIME_SLICE
}

/// The time a sample at `elapsed_time` advances the world by, when it is accepted; samples
/// that come too soon are dropped and their time is not carried over.
pub fn tick_delta(last_tick_time: i64, elapsed_time: i64) -> (r: Option<u64>)
    ensures
        r == (if due(last_tick_time as int, elapsed_time as int) {
            Some((elapsed_time - last_tick_time) as u64)
        } else {
            None::<u64>
        }),
{
    let delta: i128 = elapsed_time as i128 - last_tick_time as i128;
    if delta >= TIME_SLICE as i128 {
        Some(delta as u64)
    } else {
        None
    }
}

/// The time of the last accepted tick.
#[derive(Debug, Clone, Copy, PartialEq, Eq, Structural)]
pub struct FrameClock {
    last_tick_time: i64,
}

impl View for FrameClock {
    type V = int;

    closed spec fn view(&self) -> int {
        self.last_tick_time as int
    }
}

impl FrameClock {
    /// The recorded time is an `i64`.
    pub proof fn view_in_range(&self)
        ensures
            i64::MIN <= self@ <= i64::MAX,
    {
    }

    /// A clock whose last tick was at time zero.
    pub fn new() -> (r: Self)
        ensures
            r@ == 0,
    {
        FrameClock { last_tick_time: 0 }
    }

    pub fn last_tick_time(&self) -> (r: i64)
        ensures
            r == self@,
    {
        self.last_tick_time
    }

    /// Offer the sample `elapsed_time`: if it is due, it becomes the last tick and the time
    /// since the previous one is returned; otherwise nothing changes.
    pub fn accept(&mut self, elapsed_time: i64) -> (r: Option<u64>)
        ensures
            r == (if due(old(self)@, elapsed_time as int) {
                Some((elapsed_time - old(self)@) as u64)
            } else {
                None::<u64>
            }),
            final(self)@ == (if r is Some {
                elapsed_time as int
            } else {
                old(self)@
            }),
    {
        let r = tick_delta(self.last_tick_time, elapsed_time);
        if r.is_some() {
            self.last_tick_time = elapsed_time;
        }
        r
    }
}

} // verus!
