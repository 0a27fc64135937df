use staccato::fallible::Fallible;
use staccato::playground::Main;
use staccato::tickable::{Phase, Tickable};
use staccato::ticker::{StdTicker, Ticker, NANOS_PER_SECOND};
use staccato::time_service::{clamp_nanos, StdTimeService, TimeService};
use std::cell::Cell;

const MS: u64 = 1_000_000;

struct FakeClock {
    now: Cell<u64>,
    step: u64,
}

impl FakeClock {
    fn new(start: u64, step: u64) -> FakeClock {
        FakeClock { now: Cell::new(start), step }
    }
}

impl TimeService for FakeClock {
    fn get_timestamp_ns(&self) -> u64 {
        let now = self.now.get();
        self.now.set(now + self.step);
        now
    }
}

#[derive(Debug, Default)]
struct Recorder {
    calls: Vec<(Phase, u64)>,
    fail_at: Option<Phase>,
}

impl Recorder {
    fn record(&mut self, phase: Phase, elapse_ns: u64) -> Result<(), Phase> {
        self.calls.push((phase, elapse_ns));
        if self.fail_at == Some(phase) {
            Err(phase)
        } else {
            Ok(())
        }
    }

    fn phases(&self) -> Vec<Phase> {
        self.calls.iter().map(|call| call.0).collect()
    }
}

impl Fallible for Recorder {
    type Error = Phase;
}

impl Tickable for Recorder {
    fn pre_update(&mut self, elapse_ns: u64) -> Result<(), Phase> {
        self.record(Phase::PreUpdate, elapse_ns)
    }

    fn fixed_update(&mut self, elapse_ns: u64) -> Result<(), Phase> {
        self.record(Phase::FixedUpdate, elapse_ns)
    }

    fn update(&mut self, elapse_ns: u64) -> Result<(), Phase> {
        self.record(Phase::Update, elapse_ns)
    }

    fn post_update(&mut self, elapse_ns: u64) -> Result<(), Phase> {
        self.record(Phase::PostUpdate, elapse_ns)
    }
}

#[test]
fn ten_per_second_fires_every_second_frame_of_50_ms() {
    let clock = FakeClock::new(0, 50 * MS);
    let mut ticker = StdTicker::new(&clock, 10);
    for frame in 1..=20u64 {
        let mut recorder = Recorder::default();
        assert_eq!(ticker.drive(&clock, &mut recorder), Ok(()));
        let fired = recorder.phases().contains(&Phase::FixedUpdate);
        assert_eq!(fired, frame % 2 == 0, "frame {}", frame);
        assert_eq!(ticker.last_update(), frame * 50 * MS);
        assert_eq!(ticker.last_tick(), (frame / 2) * 100 * MS);
    }
}

#[test]
fn rate_zero_never_fires() {
    let mut ticker = StdTicker::starting_at(0, 0);
    for current in [0u64, 1, NANOS_PER_SECOND, 1 << 40, u64::MAX - 1, u64::MAX] {
        assert!(!ticker.should_tick(current));
        let mut recorder = Recorder::default();
        assert_eq!(ticker.drive_at(current, &mut recorder), Ok(()));
        assert_eq!(recorder.phases(), vec![Phase::PreUpdate, Phase::Update, Phase::PostUpdate]);
        assert_eq!(ticker.last_tick(), 0);
    }
    assert_eq!(ticker.compute_next_tick_ns(), u64::MAX);
}

#[test]
fn phases_run_in_order_with_the_elapsed_time() {
    let mut ticker = StdTicker::starting_at(1_000, 10);
    let mut recorder = Recorder::default();
    assert_eq!(ticker.drive_at(1_000 + 100 * MS, &mut recorder), Ok(()));
    assert_eq!(
        recorder.calls,
        vec![
            (Phase::PreUpdate, 100 * MS),
            (Phase::FixedUpdate, 100 * MS),
            (Phase::Update, 100 * MS),
            (Phase::PostUpdate, 100 * MS),
        ]
    );
    assert_eq!(ticker.last_tick(), 100 * MS);
    assert_eq!(ticker.last_update(), 1_000 + 100 * MS);
}

#[test]
fn frame_without_fixed_step_skips_the_fixed_update() {
    let mut ticker = StdTicker::starting_at(0, 10);
    let mut recorder = Recorder::default();
    assert_eq!(ticker.drive_at(100 * MS - 1, &mut recorder), Ok(()));
    assert_eq!(
        recorder.calls,
        vec![
            (Phase::PreUpdate, 100 * MS - 1),
            (Phase::Update, 100 * MS - 1),
            (Phase::PostUpdate, 100 * MS - 1),
        ]
    );
    assert_eq!(ticker.last_tick(), 0);
}

#[test]
fn failing_phase_ends_the_frame() {
    for (fail_at, expected) in [
        (Phase::PreUpdate, vec![Phase::PreUpdate]),
        (Phase::FixedUpdate, vec![Phase::PreUpdate, Phase::FixedUpdate]),
        (Phase::Update, vec![Phase::PreUpdate, Phase::FixedUpdate, Phase::Update]),
        (
            Phase::PostUpdate,
            vec![Phase::PreUpdate, Phase::FixedUpdate, Phase::Update, Phase::PostUpdate],
        ),
    ] {
        let mut ticker = StdTicker::starting_at(0, 10);
        let mut recorder = Recorder { calls: Vec::new(), fail_at: Some(fail_at) };
        assert_eq!(ticker.drive_at(100 * MS, &mut recorder), Err(fail_at));
        assert_eq!(recorder.phases(), expected);
        assert_eq!(ticker.last_update(), 100 * MS);
        let fixed_ran = fail_at != Phase::PreUpdate;
        assert_eq!(ticker.last_tick(), if fixed_ran { 100 * MS } else { 0 });
    }
}

#[test]
fn elapsed_is_zero_when_the_clock_runs_backwards() {
    let mut ticker = StdTicker::starting_at(500, 0);
    let mut recorder = Recorder::default();
    assert_eq!(ticker.drive_at(200, &mut recorder), Ok(()));
    assert_eq!(recorder.calls[0], (Phase::PreUpdate, 0));
    assert_eq!(ticker.last_update(), 200);
}

#[test]
fn next_tick_is_one_interval_after_the_last() {
    let ticker = StdTicker::starting_at(0, 10);
    assert_eq!(ticker.compute_next_tick_ns(), 100 * MS);
    assert!(!ticker.should_tick(100 * MS - 1));
    assert!(ticker.should_tick(100 * MS));
    let ticker = StdTicker::starting_at(0, 3);
    assert_eq!(ticker.compute_next_tick_ns(), 333_333_333);
    let ticker = StdTicker::starting_at(0, 50);
    assert_eq!(ticker.compute_next_tick_ns(), 20 * MS);
    let fast = StdTicker::starting_at(0, 2_000_000_000);
    assert_eq!(fast.compute_next_tick_ns(), 0);
    assert!(fast.should_tick(0));
}

#[test]
fn a_ticker_that_is_behind_catches_up_one_interval_per_frame() {
    let mut ticker = StdTicker::starting_at(0, 10);
    let mut recorder = Recorder::default();
    assert_eq!(ticker.drive_at(1_000 * MS, &mut recorder), Ok(()));
    assert_eq!(ticker.last_tick(), 100 * MS);
    assert_eq!(ticker.drive_at(1_000 * MS, &mut recorder), Ok(()));
    assert_eq!(ticker.last_tick(), 200 * MS);
}

#[test]
fn rate_can_be_read_and_set() {
    let clock = FakeClock::new(77, 1);
    let mut ticker = StdTicker::new(&clock, 50);
    assert_eq!(ticker.tick_per_second(), 50);
    assert_eq!(ticker.last_tick(), 0);
    assert_eq!(ticker.last_update(), 77);
    ticker.set_tick_per_second(0);
    assert_eq!(ticker.tick_per_second(), 0);
    assert_eq!(ticker.last_update(), 77);
    assert!(!ticker.should_tick(u64::MAX));
}

#[test]
fn sample_application_is_driven_without_error() {
    let mut ticker = StdTicker::starting_at(0, 50);
    let mut main = Main::new();
    assert!(ticker.drive_at(20 * MS, &mut main).is_ok());
    assert!(main.running);
    assert_eq!(ticker.last_tick(), 20 * MS);
}

#[test]
fn std_clock_does_not_run_backwards() {
    let clock = StdTimeService::new();
    let first = clock.get_timestamp_ns();
    let second = clock.get_timestamp_ns();
    assert!(second >= first);
    let other = StdTimeService::default();
    assert!(other.get_timestamp_ns() < 60 * NANOS_PER_SECOND);
}

#[test]
fn nanos_are_clamped_to_a_timestamp() {
    assert_eq!(clamp_nanos(0), 0);
    assert_eq!(clamp_nanos(12_345), 12_345);
    assert_eq!(clamp_nanos(u64::MAX as u128), u64::MAX);
    assert_eq!(clamp_nanos(u64::MAX as u128 + 1), u64::MAX);
    assert_eq!(clamp_nanos(u128::MAX), u64::MAX);
}
