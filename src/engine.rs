use vstd::prelude::*;

verus! {

/// The time from `from` to `to`, or zero when `to` comes first.
pub open spec fn elapsed(from: u64, to: u64) -> u64 {
    if to >= from {
        (to - from) as u64
    } else {
        0
    }
}

fn elapsed_between(from: u64, to: u64) -> (r: u64)
    ensures
        r == elapsed(from, to),
{
    to.saturating_sub(from)
}

/// How long each part of a frame took. Times are in nanoseconds on a
/// monotonic clock; each part runs from the end of the one before.
pub struct FrameTimeBreakdown {
    pub start: u64,
    pub setup: u64,
    pub object_loop: u64,
    pub ambient: u64,
    pub directional: u64,
    pub draw_call: u64,
    /// The end of the part measured last.
    pub temp_time: u64,
}

impl FrameTimeBreakdown {
    /// A breakdown for a frame starting at `now`, all parts still zero.
    pub fn new(now: u64) -> (r: FrameTimeBreakdown)
        ensures
            r.start == now,
            r.setup == 0 && r.object_loop == 0 && r.ambient == 0,
            r.directional == 0 && r.draw_call == 0,
            r.temp_time == now,
    {
        FrameTimeBreakdown {
            start: now,
            setup: 0,
            object_loop: 0,
            ambient: 0,
            directional: 0,
            draw_call: 0,
            temp_time: now,
        }
    }

    /// Starts over for a frame beginning at `now`.
    pub fn restart(&mut self, now: u64)
        ensures
            final(self).start == now,
            final(self).setup == 0 && final(self).object_loop == 0 && final(self).ambient == 0,
            final(self).directional == 0 && final(self).draw_call == 0,
            final(self).temp_time == now,
    {
        *self = FrameTimeBreakdown::new(now);
    }

    /// Setup ends at `now`; it ran from the start of the frame.
    pub fn update_setup(&mut self, now: u64)
        ensures
            final(self).setup == elapsed(old(self).start, now),
            final(self).temp_time == now,
            final(self).start == old(self).start,
            final(self).object_loop == old(self).object_loop,
            final(self).ambient == old(self).ambient,
            final(self).directional == old(self).directional,
            final(self).draw_call == old(self).draw_call,
    {
        self.setup = elapsed_between(self.start, now);
        self.temp_time = now;
    }

    /// The object loop ends at `now`.
    pub fn update_object_loop(&mut self, now: u64)
        ensures
            final(self).object_loop == elapsed(old(self).temp_time, now),
            final(self).temp_time == now,
            final(self).start == old(self).start,
            final(self).setup == old(self).setup,
            final(self).ambient == old(self).ambient,
            final(self).directional == old(self).directional,
            final(self).draw_call == old(self).draw_call,
    {
        self.object_loop = elapsed_between(self.temp_time, now);
        self.temp_time = now;
    }

    /// The ambient pass ends at `now`.
    pub fn update_ambient(&mut self, now: u64)
        ensures
            final(self).ambient == elapsed(old(self).temp_time, now),
            final(self).temp_time == now,
            final(self).start == old(self).start,
            final(self).setup == old(self).setup,
            final(self).object_loop == old(self).object_loop,
            final(self).directional == old(self).directional,
            final(self).draw_call == old(self).draw_call,
    {
        self.ambient = elapsed_between(self.temp_time, now);
        self.temp_time = now;
    }

    /// The directional passes end at `now`.
    pub fn update_directional(&mut self, now: u64)
        ensures
            final(self).directional == elapsed(old(self).temp_time, now),
            final(self).temp_time == now,
            final(self).start == old(self).start,
            final(self).setup == old(self).setup,
            final(self).object_loop == old(self).object_loop,
            final(self).ambient == old(self).ambient,
            final(self).draw_call == old(self).draw_call,
    {
        self.directional = elapsed_between(self.temp_time, now);
        self.temp_time = now;
    }

    /// Submission and presentation end at `now`.
    pub fn update_draw_call(&mut self, now: u64)
        ensures
            final(self).draw_call == elapsed(old(self).temp_time, now),
            final(self).temp_time == now,
            final(self).start == old(self).start,
            final(self).setup == old(self).setup,
            final(self).object_loop == old(self).object_loop,
            final(self).ambient == old(self).ambient,
            final(self).directional == old(self).directional,
    {
        self.draw_call = elapsed_between(self.temp_time, now);
        self.temp_time = now;
    }
}

} // verus!
