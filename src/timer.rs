use vstd::prelude::*;

verus! {

/// Length of one timer period (1/60 s) in microseconds.
pub const PERIOD: u64 = 16666;

/// The delay and sound timers. Both count down by one per elapsed period, down
/// to zero. Time is a reading in microseconds of a clock that starts at zero.
pub struct Timers {
    pub delay_timer: u8,
    pub sound_timer: u8,
    pub last_tick: u64,
}

/// `t` counted down by one, stopping at zero.
pub open spec fn count_down(t: u8) -> u8 {
    if t > 0 {
        (t - 1) as u8
    } else {
        0
    }
}

/// Time from `last` to `now`, or zero for a reading before `last`.
pub open spec fn elapsed(last: u64, now: u64) -> u64 {
    if now >= last {
        (now - last) as u64
    } else {
        0
    }
}

impl Timers {
    /// The timers after a tick at time `now`: when a full period has passed
    /// since the last count-down, both count down and `now` becomes the
    /// reference time; otherwise nothing changes.
    pub open spec fn ticked(self, now: u64) -> Timers {
        if elapsed(self.last_tick, now) < PERIOD {
            self
        } else {
            Timers {
                delay_timer: count_down(self.delay_timer),
                sound_timer: count_down(self.sound_timer),
                last_tick: now,
            }
        }
    }

    /// The timers after a tick at each of `times` in turn.
    pub open spec fn ticked_all(self, times: Seq<u64>) -> Timers
        decreases times.len(),
    {
        if times.len() == 0 {
            self
        } else {
            self.ticked(times[0]).ticked_all(times.drop_first())
        }
    }

    pub fn new() -> (r: Timers)
        ensures
            r == (Timers { delay_timer: 0, sound_timer: 0, last_tick: 0 }),
    {
        Timers { delay_timer: 0, sound_timer: 0, last_tick: 0 }
    }

    /// Counts both timers down if a period has passed since the last
    /// count-down. Returns the time elapsed since then when it has not, and
    /// zero when it counted down.
    pub fn tick(&mut self, now: u64) -> (r: u64)
        ensures
            *final(self) == old(self).ticked(now),
            r == (if elapsed(old(self).last_tick, now) < PERIOD {
                elapsed(old(self).last_tick, now)
            } else {
                0
            }),
    {
        let diff = if now >= self.last_tick {
            now - self.last_tick
        } else {
            0
        };
        if diff < PERIOD {
            return diff;
        }
        self.last_tick = now;
        if self.delay_timer > 0 {
            self.delay_timer = self.delay_timer - 1;
        }
        if self.sound_timer > 0 {
            self.sound_timer = self.sound_timer - 1;
        }
        0
    }
}

/// Ticks that come at least one period apart each count the timers down, so a
/// delay of `d` reads zero after `d` such ticks. A tick never raises a timer.
pub proof fn lemma_delay_reaches_zero(t: Timers, times: Seq<u64>)
    requires
        times.len() >= t.delay_timer,
        forall|k: int|
            0 <= k < times.len() ==> #[trigger] times[k] >= (if k == 0 {
                t.last_tick
            } else {
                times[k - 1]
            }) + PERIOD,
    ensures
        t.ticked_all(times).delay_timer == 0,
    decreases times.len(),
{
    if times.len() > 0 {
        let next = t.ticked(times[0]);
        let rest = times.drop_first();
        assert forall|k: int| 0 <= k < rest.len() implies #[trigger] rest[k] >= (if k == 0 {
            next.last_tick
        } else {
            rest[k - 1]
        }) + PERIOD by {
            assert(rest[k] == times[k + 1]);
        }
        lemma_delay_reaches_zero(next, rest);
    }
}

/// A run of ticks never raises the delay timer.
pub proof fn lemma_delay_never_rises(t: Timers, times: Seq<u64>)
    ensures
        t.ticked_all(times).delay_timer <= t.delay_timer,
    decreases times.len(),
{
    if times.len() > 0 {
        lemma_delay_never_rises(t.ticked(times[0]), times.drop_first());
    }
}

} // verus!
