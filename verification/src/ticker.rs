//! The scheduler of frames and fixed steps.

use vstd::prelude::*;
use crate::tickable::{frame_phases, runs, Phase, Tickable};
use crate::time_service::TimeService;

verus! {

/// The nanoseconds in one second.
pub const NANOS_PER_SECOND: u64 = 1_000_000_000;

/// Drives something that is updated in phases, frame after frame, and
/// decides in each frame whether a fixed step is due.
pub trait Ticker {
    /// The fixed steps per second; 0 where there are none.
    fn tick_per_second(&self) -> u64;

    /// Sets the fixed steps per second; 0 switches them off.
    fn set_tick_per_second(&mut self, set_to: u64);

    /// Runs one frame: reads the clock once, then runs the phases of
    /// `tickable` in order, the fixed update among them or not, up to the
    /// first that fails.
    fn drive<T: TimeService, K: Tickable>(&mut self, time_service: &T, tickable: &mut K) -> (outcome:
        Result<(), K::Error>)
        ensures
            exists|due: bool, elapse_ns: u64, invoked: nat| #[trigger]
                runs(
                    *old(tickable),
                    frame_phases(due),
                    elapse_ns,
                    *final(tickable),
                    outcome,
                    invoked,
                ),
    ;
}

/// A ticker that keeps the time of the last fixed step and of the last
/// frame.
#[derive(Debug, Clone, Copy, PartialEq, Eq, Structural)]
pub struct StdTicker {
    tick_per_second: u64,
    last_tick: u64,
    last_update: u64,
}

impl StdTicker {
    /// The fixed steps per second; 0 where there are none.
    pub closed spec fn tick_rate(self) -> u64 {
        self.tick_per_second
    }

    /// The time of the last fixed step, or 0 where none has run.
    pub closed spec fn last_tick_spec(self) -> u64 {
        self.last_tick
    }

    /// The time of the last frame, or the time at which the ticker was
    /// made where none has run.
    pub closed spec fn last_update_spec(self) -> u64 {
        self.last_update
    }

    /// The ticker with the given rate and times.
    pub closed spec fn with(tick_per_second: u64, last_tick: u64, last_update: u64) -> StdTicker {
        StdTicker { tick_per_second, last_tick, last_update }
    }

    /// A ticker is its rate and its two times, and nothing else.
    pub proof fn lemma_with(self)
        ensures
            self == StdTicker::with(self.tick_rate(), self.last_tick_spec(), self.last_update_spec()),
            forall|r: u64, t: u64, u: u64|
                {
                    let made = #[trigger] StdTicker::with(r, t, u);
                    made.tick_rate() == r && made.last_tick_spec() == t && made.last_update_spec()
                        == u
                },
    {
    }

    /// The nanoseconds between two fixed steps (no meaning at rate 0).
    pub open spec fn interval_spec(self) -> int {
        NANOS_PER_SECOND as int / self.tick_rate() as int
    }

    /// The time at which the next fixed step is due, or `None` at rate 0,
    /// where none ever is.
    pub open spec fn next_tick_spec(self) -> Option<int> {
        if self.tick_rate() == 0 {
            None
        } else {
            Some(self.last_tick_spec() + self.interval_spec())
        }
    }

    /// Whether a fixed step is due at the time `current`.
    pub open spec fn should_tick_spec(self, current: u64) -> bool {
        match self.next_tick_spec() {
            Some(next) => current >= next,
            None => false,
        }
    }

    /// The nanoseconds from the last frame to the time `current`; 0 where
    /// the clock has not advanced.
    pub open spec fn elapsed_spec(self, current: u64) -> u64 {
        if current >= self.last_update_spec() {
            (current - self.last_update_spec()) as u64
        } else {
            0
        }
    }

    /// The ticker after a frame at the time `current`, in which the fixed
    /// update ran or did not: the frame's time is kept, and a fixed
    /// update moves the time of the last fixed step on by one interval.
    pub open spec fn after_frame(self, current: u64, fixed_update_ran: bool) -> StdTicker {
        StdTicker::with(
            self.tick_rate(),
            if fixed_update_ran {
                (self.last_tick_spec() + self.interval_spec()) as u64
            } else {
                self.last_tick_spec()
            },
            current,
        )
    }

    /// Whether a frame at the time `current` may take the ticker `self`
    /// to `after` and what it drives from `pre` to `post`, with the
    /// outcome `outcome` and `invoked` phases begun.
    ///
    /// Every phase gets the nanoseconds since the last frame. The phases
    /// run in order, the fixed update among them where a fixed step is
    /// due, up to the first that fails. The fixed update is the second
    /// phase: it ran where a fixed step was due and two phases or more
    /// were begun.
    pub open spec fn frame<K: Tickable>(
        self,
        current: u64,
        pre: K,
        post: K,
        outcome: Result<(), K::Error>,
        after: StdTicker,
        invoked: nat,
    ) -> bool {
        let due = self.should_tick_spec(current);
        &&& runs(pre, frame_phases(due), self.elapsed_spec(current), post, outcome, invoked)
        &&& after == self.after_frame(current, due && invoked >= 2)
    }

    /// A ticker with the given rate whose last frame was at `now` and
    /// that has not run a fixed step yet.
    pub fn starting_at(now: u64, tick_per_second: u64) -> (ticker: StdTicker)
        ensures
            ticker == StdTicker::with(tick_per_second, 0, now),
    {
        StdTicker { tick_per_second, last_tick: 0, last_update: now }
    }

    /// A ticker with the given rate that has not run a fixed step yet;
    /// its last frame counts as having been at the clock's present time.
    pub fn new<T: TimeService>(time_service: &T, tick_per_second: u64) -> (ticker: StdTicker)
        ensures
            ticker.tick_rate() == tick_per_second,
            ticker.last_tick_spec() == 0,
    {
        StdTicker::starting_at(time_service.get_timestamp_ns(), tick_per_second)
    }

    /// The time of the last fixed step, or 0 where none has run.
    pub fn last_tick(&self) -> (time: u64)
        ensures
            time == self.last_tick_spec(),
    {
        self.last_tick
    }

    /// The time of the last frame.
    pub fn last_update(&self) -> (time: u64)
        ensures
            time == self.last_update_spec(),
    {
        self.last_update
    }

    /// The time at which the next fixed step is due. Where none ever is,
    /// at rate 0 or with a due time beyond the last timestamp, this is
    /// the last timestamp.
    pub fn compute_next_tick_ns(&self) -> (next: u64)
        ensures
            next == match self.next_tick_spec() {
                Some(next) => if next <= u64::MAX {
                    next as u64
                } else {
                    u64::MAX
                },
                None => u64::MAX,
            },
    {
        if self.tick_per_second == 0 {
            return u64::MAX;
        }
        let interval: u64 = NANOS_PER_SECOND / self.tick_per_second;
        self.last_tick.saturating_add(interval)
    }

    /// Whether a fixed step is due at the time `current`: whether the
    /// rate is not 0 and one interval has passed since the last fixed
    /// step.
    pub fn should_tick(&self, current: u64) -> (due: bool)
        ensures
            due == self.should_tick_spec(current),
            self.tick_rate() == 0 ==> !due,
    {
        if self.tick_per_second == 0 {
            return false;
        }
        let interval: u64 = NANOS_PER_SECOND / self.tick_per_second;
        match self.last_tick.checked_add(interval) {
            Some(next) => current >= next,
            None => false,
        }
    }

    /// Runs one frame at the time `current`.
    ///
    /// Every phase gets the nanoseconds since the last frame. The phases
    /// run in order, the fixed update among them where a fixed step is
    /// due, up to the first that fails; its error is returned. The time
    /// of the last frame becomes `current`; the time of the last fixed
    /// step moves on by one interval where the fixed update was begun.
    pub fn drive_at<K: Tickable>(&mut self, current: u64, tickable: &mut K) -> (outcome: Result<
        (),
        K::Error,
    >)
        ensures
            exists|invoked: nat| #[trigger]
                old(self).frame(
                    current,
                    *old(tickable),
                    *final(tickable),
                    outcome,
                    *final(self),
                    invoked,
                ),
    {
        let elapsed: u64 = current.saturating_sub(self.last_update);
        let due = self.should_tick(current);
        let next: u64 = self.compute_next_tick_ns();
        let ghost phases = frame_phases(due);
        let ghost s0 = *tickable;
        let ghost t0 = *self;
        self.last_update = current;

        let first = tickable.pre_update(elapsed);
        let ghost s1 = *tickable;
        if first.is_err() {
            proof {
                lemma_runs_fails(s0, phases, elapsed, s1, first);
                assert(*self == t0.after_frame(current, false));
                assert(t0.frame(current, s0, s1, first, *self, 1));
            }
            return first;
        }
        let ghost after_pre = phases.drop_first();

        let ghost s2 = s1;
        let ghost second_outcome = first;
        if due {
            self.last_tick = next;
            let second = tickable.fixed_update(elapsed);
            proof {
                s2 = *tickable;
                second_outcome = second;
                assert(*self == t0.after_frame(current, true));
            }
            if second.is_err() {
                proof {
                    lemma_runs_fails(s1, after_pre, elapsed, s2, second);
                    lemma_runs_goes_on(s0, phases, elapsed, s1, first, s2, second, 1);
                    assert(t0.frame(current, s0, s2, second, *self, 2));
                }
                return second;
            }
        }
        let ghost rest = seq![Phase::Update, Phase::PostUpdate];
        proof {
            if due {
                assert(after_pre.drop_first() =~= rest);
            } else {
                assert(after_pre =~= rest);
            }
        }

        let third = tickable.update(elapsed);
        let ghost s3 = *tickable;
        if third.is_err() {
            proof {
                lemma_runs_fails(s2, rest, elapsed, s3, third);
                if due {
                    lemma_runs_goes_on(s1, after_pre, elapsed, s2, second_outcome, s3, third, 1);
                    lemma_runs_goes_on(s0, phases, elapsed, s1, first, s3, third, 2);
                } else {
                    lemma_runs_goes_on(s0, phases, elapsed, s1, first, s3, third, 1);
                }
                assert(t0.frame(current, s0, s3, third, *self, if due { 3 } else { 2 }));
            }
            return third;
        }
        let fourth = tickable.post_update(elapsed);
        let ghost s4 = *tickable;
        proof {
            let last = rest.drop_first();
            assert(last =~= seq![Phase::PostUpdate]);
            if fourth is Err {
                lemma_runs_fails(s3, last, elapsed, s4, fourth);
            } else {
                assert(last.drop_first() =~= Seq::<Phase>::empty());
                assert(runs(s4, last.drop_first(), elapsed, s4, fourth, 0));
                lemma_runs_goes_on(s3, last, elapsed, s4, fourth, s4, fourth, 0);
            }
            lemma_runs_goes_on(s2, rest, elapsed, s3, third, s4, fourth, 1);
            if due {
                lemma_runs_goes_on(s1, after_pre, elapsed, s2, second_outcome, s4, fourth, 2);
                lemma_runs_goes_on(s0, phases, elapsed, s1, first, s4, fourth, 3);
            } else {
                lemma_runs_goes_on(s0, phases, elapsed, s1, first, s4, fourth, 2);
            }
            assert(t0.frame(current, s0, s4, fourth, *self, if due { 4 } else { 3 }));
        }
        fourth
    }
}

impl StdTicker {
    /// The ticker after `n` frames in which every phase succeeds, the
    /// frame numbered `i` (from 1) being at the time `start + i * step`.
    pub open spec fn after_frames(self, start: int, step: int, n: nat) -> StdTicker
        decreases n,
    {
        if n == 0 {
            self
        } else {
            let before = self.after_frames(start, step, (n - 1) as nat);
            let now = (start + n * step) as u64;
            before.after_frame(now, before.should_tick_spec(now))
        }
    }

    /// At rate 0 no fixed step is ever due, whatever the time, and a
    /// frame leaves the rate at 0.
    pub proof fn lemma_rate_zero_never_ticks(self, current: u64)
        requires
            self.tick_rate() == 0,
        ensures
            !self.should_tick_spec(current),
            frame_phases(self.should_tick_spec(current)) == seq![
                Phase::PreUpdate,
                Phase::Update,
                Phase::PostUpdate,
            ],
            self.after_frame(current, false).tick_rate() == 0,
    {
    }

    /// At rate 0 no fixed step is due in any frame of any run of frames.
    pub proof fn lemma_rate_zero_never_ticks_in_frames(
        self,
        start: int,
        step: int,
        n: nat,
        current: u64,
    )
        requires
            self.tick_rate() == 0,
        ensures
            self.after_frames(start, step, n).tick_rate() == 0,
            !self.after_frames(start, step, n).should_tick_spec(current),
        decreases n,
    {
        if n > 0 {
            self.lemma_rate_zero_never_ticks_in_frames(start, step, (n - 1) as nat, current);
        }
    }

    proof fn lemma_ten_per_second(self, m: nat)
        requires
            self.tick_rate() == 10,
            self.last_tick_spec() + m * 50_000_000 <= u64::MAX,
        ensures
            self.after_frames(self.last_tick_spec() as int, 50_000_000, m).tick_rate() == 10,
            self.after_frames(self.last_tick_spec() as int, 50_000_000, m).last_tick_spec()
                == self.last_tick_spec() + (m / 2) * 100_000_000,
        decreases m,
    {
        if m > 0 {
            self.lemma_ten_per_second((m - 1) as nat);
        }
    }

    /// With ten fixed steps per second and a frame every 50 milliseconds
    /// from the time of the last fixed step, a fixed step is due in every
    /// second frame and in no frame between: in the frame numbered `n`
    /// (from 1) exactly where `n` is even.
    pub proof fn lemma_fixed_step_every_second_frame(self, n: nat)
        requires
            self.tick_rate() == 10,
            n >= 1,
            self.last_tick_spec() + n * 50_000_000 <= u64::MAX,
        ensures
            self.after_frames(self.last_tick_spec() as int, 50_000_000, (n - 1) as nat)
                .should_tick_spec((self.last_tick_spec() + n * 50_000_000) as u64) <==> n % 2
                == 0,
    {
        self.lemma_ten_per_second((n - 1) as nat);
    }
}

/// A run whose first phase fails ends there.
proof fn lemma_runs_fails<K: Tickable>(
    pre: K,
    phases: Seq<Phase>,
    elapse_ns: u64,
    post: K,
    outcome: Result<(), K::Error>,
)
    requires
        phases.len() > 0,
        K::phase(pre, phases[0], elapse_ns, post, outcome),
        outcome is Err,
    ensures
        runs(pre, phases, elapse_ns, post, outcome, 1),
{
}

/// A run whose first phase succeeds goes on with the phases after it.
proof fn lemma_runs_goes_on<K: Tickable>(
    pre: K,
    phases: Seq<Phase>,
    elapse_ns: u64,
    mid: K,
    first: Result<(), K::Error>,
    post: K,
    outcome: Result<(), K::Error>,
    invoked: nat,
)
    requires
        phases.len() > 0,
        K::phase(pre, phases[0], elapse_ns, mid, first),
        first is Ok,
        runs(mid, phases.drop_first(), elapse_ns, post, outcome, invoked),
    ensures
        runs(pre, phases, elapse_ns, post, outcome, invoked + 1),
{
    assert((invoked + 1 - 1) as nat == invoked);
}

impl Ticker for StdTicker {
    fn tick_per_second(&self) -> (rate: u64)
        ensures
            rate == self.tick_rate(),
    {
        self.tick_per_second
    }

    fn set_tick_per_second(&mut self, set_to: u64)
        ensures
            *final(self) == StdTicker::with(
                set_to,
                old(self).last_tick_spec(),
                old(self).last_update_spec(),
            ),
    {
        self.tick_per_second = set_to
    }

    /// Runs one frame at the clock's present time, as
    /// [`StdTicker::drive_at`] does at a given time.
    fn drive<T: TimeService, K: Tickable>(&mut self, time_service: &T, tickable: &mut K) -> (outcome:
        Result<(), K::Error>)
        ensures
            exists|current: u64, invoked: nat| #[trigger]
                old(self).frame(
                    current,
                    *old(tickable),
                    *final(tickable),
                    outcome,
                    *final(self),
                    invoked,
                ),
    {
        let current = time_service.get_timestamp_ns();
        self.drive_at(current, tickable)
    }
}

} // verus!
