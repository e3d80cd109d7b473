//! When a key that the terminal stopped mentioning counts as released.
//!
//! A terminal that reports no key releases leaves the last key pressed
//! hanging. A [`ReleaseKey`] strategy says how long to wait before the
//! release is made up; a [`ReleaseKeyState`] holds the running count or
//! timer. Time is measured in nanoseconds.

use vstd::prelude::*;

verus! {

/// How to release the last key pressed when no further key event arrives.
#[derive(Clone, Copy, Debug, PartialEq, Eq, Structural)]
pub enum ReleaseKey {
    /// Release the key once this many nanoseconds have passed.
    Duration(u64),
    /// Release the key after a number of frames.
    FrameCount(u32),
    /// Release the key on the next frame.
    Immediate,
    /// Do not release the key until another key is pressed.
    OnNextKey,
}

/// One second, in nanoseconds.
pub const ONE_SECOND: u64 = 1_000_000_000;

impl Default for ReleaseKey {
    /// One second before the release.
    fn default() -> (r: ReleaseKey)
        ensures
            r == ReleaseKey::Duration(ONE_SECOND),
    {
        ReleaseKey::Duration(ONE_SECOND)
    }
}

/// Ticks a `bevy::time::Timer` of the mode `TimerMode::Once` that has the
/// given duration and time elapsed and is neither paused nor finished, and
/// returns the time elapsed and whether the timer is finished after the tick,
/// all times in nanoseconds.
///
/// Believed of `Timer::tick`, not proved: the tick adds `delta` to the time
/// elapsed; the timer is finished exactly if the sum has reached the
/// duration; a timer that finishes has its time elapsed set to its duration.
#[verifier::external_body]
fn tick_once(duration: u64, elapsed: u64, delta: u64) -> (r: (u64, bool))
    ensures
        r.1 == (elapsed + delta >= duration),
        r.0 == if r.1 {
            duration as int
        } else {
            elapsed + delta
        },
{
    let mut timer = bevy::time::Timer::new(
        std::time::Duration::from_nanos(duration),
        bevy::time::TimerMode::Once,
    );
    timer.set_elapsed(std::time::Duration::from_nanos(elapsed));
    timer.tick(std::time::Duration::from_nanos(delta));
    (timer.elapsed().as_nanos() as u64, timer.finished())
}

/// A timer that runs once: it collects elapsed time until it reaches its
/// duration, and then stays finished until it is reset.
#[derive(Clone, Copy, Debug, PartialEq, Eq, Structural)]
pub struct Timer {
    /// The time after which the timer is finished.
    pub duration: u64,
    /// The time collected so far, never kept beyond `duration` once finished.
    pub elapsed: u64,
    /// Whether a tick has found the duration reached.
    pub finished: bool,
}

impl Timer {
    /// What is left to run: the countdown that the timer stands for.
    pub open spec fn remaining(self) -> int {
        if self.elapsed >= self.duration {
            0
        } else {
            self.duration - self.elapsed
        }
    }

    /// The timer after `delta` more nanoseconds. A finished timer does not
    /// move. A timer that reaches its duration is finished and holds its
    /// duration as the time elapsed.
    pub open spec fn ticked(self, delta: u64) -> Timer {
        if self.finished {
            self
        } else if self.elapsed + delta >= self.duration {
            Timer { duration: self.duration, elapsed: self.duration, finished: true }
        } else {
            Timer { duration: self.duration, elapsed: (self.elapsed + delta) as u64, finished: false }
        }
    }

    /// A fresh timer: nothing elapsed, not finished, even where the duration
    /// is zero.
    pub fn new(duration: u64) -> (r: Timer)
        ensures
            r == (Timer { duration, elapsed: 0, finished: false }),
    {
        Timer { duration, elapsed: 0, finished: false }
    }

    /// Advances the timer by `delta` nanoseconds.
    pub fn tick(&mut self, delta: u64)
        ensures
            *final(self) == old(self).ticked(delta),
    {
        if self.finished {
            return ;
        }
        let (elapsed, finished) = tick_once(self.duration, self.elapsed, delta);
        self.elapsed = elapsed;
        self.finished = finished;
    }

    /// Whether the duration has been reached.
    pub fn finished(&self) -> (r: bool)
        ensures
            r == self.finished,
    {
        self.finished
    }

    /// Starts the timer over with the same duration.
    pub fn reset(&mut self)
        ensures
            *final(self) == (Timer { duration: old(self).duration, elapsed: 0, finished: false }),
    {
        self.elapsed = 0;
        self.finished = false;
    }
}

/// The running state of a release strategy.
#[derive(Clone, Copy, Debug, PartialEq, Eq, Structural)]
pub enum ReleaseKeyState {
    /// Nothing has run yet.
    Unarmed,
    /// Frames counted since the last reset.
    Count(u32),
    /// The timer of a duration strategy.
    Timer(Timer),
}

impl Default for ReleaseKeyState {
    fn default() -> (r: ReleaseKeyState)
        ensures
            r == ReleaseKeyState::Unarmed,
    {
        ReleaseKeyState::Unarmed
    }
}

impl ReleaseKey {
    /// Whether the state is one of this strategy: a count for `FrameCount`
    /// and `Immediate`, a timer of the strategy's own duration for
    /// `Duration`. `OnNextKey` keeps no state, so any state fits it.
    pub open spec fn fits(self, state: ReleaseKeyState) -> bool {
        match self {
            ReleaseKey::FrameCount(_) | ReleaseKey::Immediate => state is Count,
            ReleaseKey::Duration(d) => match state {
                ReleaseKeyState::Timer(timer) => timer.duration == d,
                _ => false,
            },
            ReleaseKey::OnNextKey => true,
        }
    }

    /// The state after one update in which `delta` nanoseconds went by. A
    /// state that does not fit the strategy is armed afresh instead of
    /// advanced: a count starts at zero, a timer at nothing elapsed of the
    /// strategy's duration.
    pub open spec fn ticked(self, state: ReleaseKeyState, delta: u64) -> ReleaseKeyState {
        match self {
            ReleaseKey::FrameCount(_) | ReleaseKey::Immediate => match state {
                ReleaseKeyState::Count(c) => ReleaseKeyState::Count(
                    if c == u32::MAX {
                        c
                    } else {
                        (c + 1) as u32
                    },
                ),
                _ => ReleaseKeyState::Count(0),
            },
            ReleaseKey::Duration(d) => match state {
                ReleaseKeyState::Timer(timer) => if timer.duration == d {
                    ReleaseKeyState::Timer(timer.ticked(delta))
                } else {
                    ReleaseKeyState::Timer(Timer { duration: d, elapsed: 0, finished: false })
                },
                _ => ReleaseKeyState::Timer(Timer { duration: d, elapsed: 0, finished: false }),
            },
            ReleaseKey::OnNextKey => state,
        }
    }

    /// Whether the wait is over: never for `OnNextKey`, always for
    /// `Immediate`, once the count has reached the target for `FrameCount`,
    /// once the timer has run out for `Duration`. With a state that does not
    /// fit the strategy no wait has begun, so none is over.
    pub open spec fn spec_finished(self, state: ReleaseKeyState) -> bool {
        match self {
            ReleaseKey::OnNextKey => false,
            ReleaseKey::FrameCount(target) => match state {
                ReleaseKeyState::Count(count) => count >= target,
                _ => false,
            },
            ReleaseKey::Duration(d) => match state {
                ReleaseKeyState::Timer(timer) => timer.duration == d && timer.finished,
                _ => false,
            },
            ReleaseKey::Immediate => true,
        }
    }

    /// The state armed again, whatever it was before: the count back at
    /// zero, the timer a fresh one of the strategy's duration with nothing
    /// elapsed.
    pub open spec fn rearmed(self, state: ReleaseKeyState) -> ReleaseKeyState {
        match self {
            ReleaseKey::FrameCount(_) | ReleaseKey::Immediate => ReleaseKeyState::Count(0),
            ReleaseKey::Duration(d) => ReleaseKeyState::Timer(
                Timer { duration: d, elapsed: 0, finished: false },
            ),
            ReleaseKey::OnNextKey => state,
        }
    }

    /// Advances the state by one update in which `delta` nanoseconds went by.
    pub fn tick(&self, state: &mut ReleaseKeyState, delta: u64)
        ensures
            *final(state) == self.ticked(*old(state), delta),
            self.fits(*final(state)),
    {
        match self {
            ReleaseKey::FrameCount(_) | ReleaseKey::Immediate => {
                match state {
                    ReleaseKeyState::Count(c) => {
                        let next: u32 = if *c == u32::MAX {
                            *c
                        } else {
                            *c + 1
                        };
                        *state = ReleaseKeyState::Count(next);
                    },
                    _ => {
                        *state = ReleaseKeyState::Count(0);
                    },
                }
            },
            ReleaseKey::Duration(d) => {
                match state {
                    ReleaseKeyState::Timer(timer) => {
                        if timer.duration == *d {
                            let mut timer = *timer;
                            timer.tick(delta);
                            *state = ReleaseKeyState::Timer(timer);
                        } else {
                            *state = ReleaseKeyState::Timer(Timer::new(*d));
                        }
                    },
                    _ => {
                        *state = ReleaseKeyState::Timer(Timer::new(*d));
                    },
                }
            },
            ReleaseKey::OnNextKey => {},
        }
    }

    /// Whether the wait is over.
    pub fn finished(&self, state: &ReleaseKeyState) -> (r: bool)
        ensures
            r == self.spec_finished(*state),
    {
        match self {
            ReleaseKey::OnNextKey => false,
            ReleaseKey::FrameCount(target) => {
                match state {
                    ReleaseKeyState::Count(count) => *count >= *target,
                    _ => false,
                }
            },
            ReleaseKey::Duration(d) => {
                match state {
                    ReleaseKeyState::Timer(timer) => timer.duration == *d && timer.finished(),
                    _ => false,
                }
            },
            ReleaseKey::Immediate => true,
        }
    }

    /// Arms the state again: the wait starts over, and a `Duration` strategy
    /// waits for its own duration whatever timer the state held.
    pub fn reset(&self, state: &mut ReleaseKeyState)
        ensures
            *final(state) == self.rearmed(*old(state)),
            self.fits(*final(state)),
    {
        match self {
            ReleaseKey::FrameCount(_) | ReleaseKey::Immediate => {
                *state = ReleaseKeyState::Count(0);
            },
            ReleaseKey::Duration(d) => {
                *state = ReleaseKeyState::Timer(Timer::new(*d));
            },
            ReleaseKey::OnNextKey => {},
        }
    }
}

/// Ticks alone never take a finished wait back: once the wait is over it
/// stays over until the state is armed again. The strategy `OnNextKey` never
/// finishes, `Immediate` is always finished.
pub proof fn lemma_finished_until_reset(release_key: ReleaseKey, state: ReleaseKeyState, delta: u64)
    requires
        release_key.spec_finished(state),
    ensures
        release_key.spec_finished(release_key.ticked(state, delta)),
{
}

/// Arming the state again starts the wait over, whatever the state was: a
/// timer is not finished until it is ticked, and a frame count is finished
/// only where the target is no frame at all. The state armed again is one of
/// the strategy.
pub proof fn lemma_reset_rearms(release_key: ReleaseKey, state: ReleaseKeyState)
    ensures
        release_key.spec_finished(release_key.rearmed(state)) == match release_key {
            ReleaseKey::Duration(_) => false,
            ReleaseKey::FrameCount(target) => target == 0,
            ReleaseKey::Immediate => true,
            ReleaseKey::OnNextKey => false,
        },
        release_key.fits(release_key.rearmed(state)),
        release_key.rearmed(release_key.rearmed(state)) == release_key.rearmed(state),
{
}

/// The timer is a countdown. A tick takes the time gone by off what is left
/// to run, and the timer is finished exactly when nothing is left.
pub proof fn lemma_timer_counts_down(timer: Timer, delta: u64)
    requires
        !timer.finished,
    ensures
        timer.ticked(delta).finished == (delta >= timer.remaining()),
        timer.ticked(delta).finished == (timer.ticked(delta).remaining() == 0),
        timer.ticked(delta).remaining() == if delta >= timer.remaining() {
            0
        } else {
            timer.remaining() - delta
        },
        timer.ticked(delta).duration == timer.duration,
{
}

/// A frame count that has been reset is finished after as many ticks as the
/// target says: the count after a tick is one more, up to the largest
/// number that fits.
pub proof fn lemma_frame_count_advances(target: u32, count: u32, delta: u64)
    ensures
        ReleaseKey::FrameCount(target).ticked(ReleaseKeyState::Count(count), delta)
            == ReleaseKeyState::Count(
            if count == u32::MAX {
                count
            } else {
                (count + 1) as u32
            },
        ),
        count < u32::MAX ==> ReleaseKey::FrameCount(target).spec_finished(
            ReleaseKey::FrameCount(target).ticked(ReleaseKeyState::Count(count), delta),
        ) == (count + 1 >= target),
{
}

/// The nanoseconds of a run of updates, added up.
pub open spec fn total(deltas: Seq<u64>) -> int
    decreases deltas.len(),
{
    if deltas.len() == 0 {
        0
    } else {
        total(deltas.drop_last()) + deltas.last()
    }
}

/// The state after a run of updates, one tick for each.
pub open spec fn ticked_through(
    release_key: ReleaseKey,
    state: ReleaseKeyState,
    deltas: Seq<u64>,
) -> ReleaseKeyState
    decreases deltas.len(),
{
    if deltas.len() == 0 {
        state
    } else {
        release_key.ticked(ticked_through(release_key, state, deltas.drop_last()), deltas.last())
    }
}

/// After a reset the whole time is needed again. Whatever the state was, a
/// `Duration` strategy that has been armed again is finished after a run of
/// ticks exactly if there was a tick and the ticks add up to the strategy's
/// duration; until then the timer holds the time that went by.
pub proof fn lemma_duration_waits_in_full(duration: u64, state: ReleaseKeyState, deltas: Seq<u64>)
    ensures
        ReleaseKey::Duration(duration).spec_finished(
            ticked_through(
                ReleaseKey::Duration(duration),
                ReleaseKey::Duration(duration).rearmed(state),
                deltas,
            ),
        ) == (deltas.len() > 0 && total(deltas) >= duration),
        ticked_through(
            ReleaseKey::Duration(duration),
            ReleaseKey::Duration(duration).rearmed(state),
            deltas,
        ) == ReleaseKeyState::Timer(
            if deltas.len() > 0 && total(deltas) >= duration {
                Timer { duration, elapsed: duration, finished: true }
            } else {
                Timer { duration, elapsed: total(deltas) as u64, finished: false }
            },
        ),
        total(deltas) >= 0,
    decreases deltas.len(),
{
    if deltas.len() > 0 {
        lemma_duration_waits_in_full(duration, state, deltas.drop_last());
    }
}

/// After a reset the whole count is needed again. Whatever the state was, a
/// `FrameCount` strategy that has been armed again is finished after a run
/// of ticks exactly if there were as many ticks as the target says.
pub proof fn lemma_frame_count_waits_in_full(target: u32, state: ReleaseKeyState, deltas: Seq<u64>)
    ensures
        ReleaseKey::FrameCount(target).spec_finished(
            ticked_through(
                ReleaseKey::FrameCount(target),
                ReleaseKey::FrameCount(target).rearmed(state),
                deltas,
            ),
        ) == (deltas.len() >= target),
        ticked_through(
            ReleaseKey::FrameCount(target),
            ReleaseKey::FrameCount(target).rearmed(state),
            deltas,
        ) == ReleaseKeyState::Count(
            if deltas.len() >= u32::MAX {
                u32::MAX
            } else {
                deltas.len() as u32
            },
        ),
    decreases deltas.len(),
{
    if deltas.len() > 0 {
        lemma_frame_count_waits_in_full(target, state, deltas.drop_last());
    }
}

} // verus!
