use crate::scheduler::{due, FrameClock};
use crate::sprite::{
    advanced, representable, spawned, Dimensions, LogoView, RandomDraw, WindowsLogo,
};
use vstd::prelude::*;

verus! {

/// The abstract state of the whole simulation.
pub ghost struct SaverView {
    pub logos: Seq<LogoView>,
    pub last_tick_time: int,
}

/// Every logo advanced by one tick, each with its own draw.
pub open spec fn all_advanced(
    logos: Seq<LogoView>,
    vp: Dimensions,
    dt: int,
    draws: Seq<RandomDraw>,
) -> Seq<LogoView> {
    Seq::new(logos.len(), |i: int| advanced(logos[i], vp, dt, draws[i]))
}

/// A fixed set of logos and the clock that paces them.
pub struct ScreenSaver {
    logos: Vec<WindowsLogo>,
    clock: FrameClock,
}

impl View for ScreenSaver {
    type V = SaverView;

    closed spec fn view(&self) -> SaverView {
        SaverView {
            logos: self.logos@.map_values(|l: WindowsLogo| l@),
            last_tick_time: self.clock@,
        }
    }
}

impl ScreenSaver {
    /// Every logo's coordinates are within the limit that keeps its next step exact.
    pub open spec fn wf(&self) -> bool {
        forall|i: int| 0 <= i < self@.logos.len() ==> representable(#[trigger] self@.logos[i])
    }

    /// One logo per draw, all of speed `window_speed`, and a clock at time zero.
    pub fn new(dimensions: Dimensions, window_speed: u32, draws: &Vec<RandomDraw>) -> (r: Self)
        ensures
            r.wf(),
            r@.last_tick_time == 0,
            r@.logos.len() == draws@.len(),
            forall|i: int|
                0 <= i < draws@.len() ==> #[trigger] r@.logos[i] == spawned(
                    window_speed as int,
                    dimensions,
                    draws@[i],
                ),
    {
        let mut logos: Vec<WindowsLogo> = Vec::new();
        let mut i: usize = 0;
        while i < draws.len()
            invariant
                i <= draws@.len(),
                logos@.len() == i,
                forall|j: int|
                    0 <= j < i ==> (#[trigger] logos@[j])@ == spawned(
                        window_speed as int,
                        dimensions,
                        draws@[j],
                    ) && logos@[j].wf(),
            decreases draws@.len() - i,
        {
            let logo = WindowsLogo::create_random_logo(dimensions, window_speed, draws[i]);
            logos.push(logo);
            i = i + 1;
        }
        ScreenSaver { logos, clock: FrameClock::new() }
    }

    /// Advance every logo by `dt_ms`, in order, the `i`-th respawning from `draws[i]` if it
    /// leaves `viewport`.
    pub fn update_state(&mut self, viewport: Dimensions, dt_ms: u64, draws: &Vec<RandomDraw>)
        requires
            old(self).wf(),
            draws@.len() == old(self)@.logos.len(),
        ensures
            final(self).wf(),
            final(self)@.last_tick_time == old(self)@.last_tick_time,
            final(self)@.logos == all_advanced(old(self)@.logos, viewport, dt_ms as int, draws@),
    {
        let ghost start = self.logos@;
        let ghost clock = self.clock;
        assert forall|j: int| 0 <= j < start.len() implies (#[trigger] start[j]).wf() by {
            assert(self@.logos[j] == start[j]@);
        }
        let n = self.logos.len();
        let mut i: usize = 0;
        while i < n
            invariant
                n == start.len(),
                self.clock == clock,
                i <= n,
                self.logos@.len() == n,
                draws@.len() == n,
                forall|j: int|
                    0 <= j < i ==> (#[trigger] self.logos@[j])@ == advanced(
                        start[j]@,
                        viewport,
                        dt_ms as int,
                        draws@[j],
                    ) && self.logos@[j].wf(),
                forall|j: int| i <= j < n ==> #[trigger] self.logos@[j] == start[j],
                forall|j: int| 0 <= j < n ==> (#[trigger] start[j]).wf(),
            decreases n - i,
        {
            let mut logo = self.logos[i];
            logo.advance(viewport, dt_ms, draws[i]);
            self.logos.set(i, logo);
            i = i + 1;
        }
        proof {
            let old_views = start.map_values(|l: WindowsLogo| l@);
            assert(self@.logos =~= all_advanced(old_views, viewport, dt_ms as int, draws@));
        }
    }

    /// Offer the sample `elapsed_time`: when it is due, record it as the last tick, advance
    /// every logo by the time since the previous tick, and return `true` (the frame should be
    /// drawn); otherwise change nothing and return `false`.
    pub fn advance_world(
        &mut self,
        elapsed_time: i64,
        viewport: Dimensions,
        draws: &Vec<RandomDraw>,
    ) -> (r: bool)
        requires
            old(self).wf(),
            draws@.len() == old(self)@.logos.len(),
        ensures
            final(self).wf(),
            r == due(old(self)@.last_tick_time, elapsed_time as int),
            r ==> final(self)@ == (SaverView {
                logos: all_advanced(
                    old(self)@.logos,
                    viewport,
                    elapsed_time - old(self)@.last_tick_time,
                    draws@,
                ),
                last_tick_time: elapsed_time as int,
            }),
            !r ==> final(self)@ == old(self)@,
    {
        let ghost last = self.clock@;
        assert(last == old(self)@.last_tick_time);
        assert(i64::MIN <= last <= i64::MAX) by {
            self.clock.view_in_range();
        }
        match self.clock.accept(elapsed_time) {
            Some(delta) => {
                assert(self@.logos == old(self)@.logos);
                assert(delta as int == elapsed_time - old(self)@.last_tick_time);
                self.update_state(viewport, delta, draws);
                assert(self@.logos == all_advanced(
                    old(self)@.logos,
                    viewport,
                    elapsed_time - old(self)@.last_tick_time,
                    draws@,
                ));
                true
            },
            None => false,
        }
    }

    pub fn len(&self) -> (r: usize)
        ensures
            r == self@.logos.len(),
    {
        self.logos.len()
    }

    /// The `i`-th logo, for drawing.
    pub fn logo(&self, i: usize) -> (r: WindowsLogo)
        requires
            i < self@.logos.len(),
        ensures
            r@ == self@.logos[i as int],
    {
        self.logos[i]
    }

    pub fn last_tick_time(&self) -> (r: i64)
        ensures
            r == self@.last_tick_time,
    {
        self.clock.last_tick_time()
    }
}

} // verus!
