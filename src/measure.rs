//! One measurement of a ranging module, as a state machine.
//!
//! The machine asks for one pin, sleep or edge-wait operation at a time and is
//! told how it went. It raises the trigger line, holds it, lowers it, then waits
//! for the echo line to rise and to fall again, each wait bounded by the
//! configured timeout, and reports the distance that the echo pulse width gives,
//! or no reading.
use vstd::prelude::*;
use crate::ranging::{
    distance_nm, distance_nm_of, to_nanos, total_nanos_of, wait_ms_of, RangeConfig, MAX_WAIT_MS,
    NANOMETERS_PER_CM, NANOS_PER_MILLISECOND, NANOS_PER_SECOND, SPEED_OF_SOUND_CM,
};

verus! {

/// How long the trigger line is held high, in nanoseconds.
pub const TRIGGER_HOLD_NANOS: u64 = 10_000;

/// The echo line's level while an echo pulse lasts.
pub const ACTIVE_LEVEL: u8 = 1;

/// Where a measurement stands.
#[derive(Debug, Clone, Copy, PartialEq, Eq, Structural)]
pub enum Phase {
    /// The trigger line was asked to go high.
    Raising,
    /// The trigger line is high and held.
    Holding,
    /// The trigger line was asked to go low; `aborted` when no echo is to be awaited.
    Lowering { aborted: bool },
    /// Edge notification on the echo line was asked for.
    Arming,
    /// Waiting for the echo line to become active.
    AwaitActive,
    /// Waiting for the echo line to fall; `start` is when it rose, in nanoseconds.
    AwaitInactive { start: u128 },
    /// The measurement is over.
    Finished { distance_nm: Option<u128> },
}

/// What the machine asks its caller to do next.
#[derive(Debug, Clone, Copy, PartialEq, Eq, Structural)]
pub enum Action {
    /// Drive the trigger line to `level`.
    SetTrigger { level: u8 },
    /// Sleep for `nanos` nanoseconds.
    Hold { nanos: u64 },
    /// Prepare edge notification on the echo line.
    Arm,
    /// Wait at most `timeout_ms` milliseconds for the echo line to change.
    WaitEdge { timeout_ms: u64 },
    /// The measurement is over: the distance in nanometres, or no reading.
    Report { distance_nm: Option<u128> },
}

/// What came of the last action.
#[derive(Debug, Clone, Copy, PartialEq, Eq, Structural)]
pub enum Event {
    /// It completed.
    Done,
    /// It failed.
    Failed,
    /// The echo line changed and now reads `level`; the clock read
    /// `secs` seconds and `subsec_nanos` nanoseconds right after.
    Edge { level: u8, secs: u64, subsec_nanos: u32 },
    /// The edge wait ran out of time.
    TimedOut,
}

/// The report that ends a measurement without a reading.
pub open spec fn no_reading() -> (Phase, Action) {
    (Phase::Finished { distance_nm: None }, Action::Report { distance_nm: None })
}

/// The distance reported for an echo pulse from `start` to `end`, in
/// nanoseconds: none when the pulse runs backwards or lasts longer than
/// `timeout_nanos`, the longest round trip of the configured range.
pub open spec fn reading_of(start: nat, end: nat, timeout_nanos: nat) -> Option<u128> {
    if end < start || end - start > timeout_nanos || distance_nm_of((end - start) as nat)
        > u128::MAX {
        None
    } else {
        Some(distance_nm_of((end - start) as nat) as u128)
    }
}

/// The phase that follows `phase` on `event`, and the action asked for then.
pub open spec fn next(config: RangeConfig, phase: Phase, event: Event) -> (Phase, Action) {
    let timeout_ms = wait_ms_of(config.timeout_spec());
    match phase {
        Phase::Raising => match event {
            Event::Done => (Phase::Holding, Action::Hold { nanos: TRIGGER_HOLD_NANOS }),
            _ => (Phase::Lowering { aborted: true }, Action::SetTrigger { level: 0 }),
        },
        Phase::Holding => (Phase::Lowering { aborted: false }, Action::SetTrigger { level: 0 }),
        Phase::Lowering { aborted } => match event {
            Event::Done => if aborted {
                no_reading()
            } else {
                (Phase::Arming, Action::Arm)
            },
            _ => no_reading(),
        },
        Phase::Arming => match event {
            Event::Done => (Phase::AwaitActive, Action::WaitEdge { timeout_ms: timeout_ms as u64 }),
            _ => no_reading(),
        },
        Phase::AwaitActive => match event {
            Event::Edge { level, secs, subsec_nanos } => if level == ACTIVE_LEVEL {
                (
                    Phase::AwaitInactive {
                        start: total_nanos_of(secs as nat, subsec_nanos as nat) as u128,
                    },
                    Action::WaitEdge { timeout_ms: timeout_ms as u64 },
                )
            } else {
                no_reading()
            },
            _ => no_reading(),
        },
        Phase::AwaitInactive { start } => match event {
            Event::Edge { level, secs, subsec_nanos } => if level != ACTIVE_LEVEL {
                let d = reading_of(
                    start as nat,
                    total_nanos_of(secs as nat, subsec_nanos as nat),
                    config.timeout_spec(),
                );
                (Phase::Finished { distance_nm: d }, Action::Report { distance_nm: d })
            } else {
                no_reading()
            },
            _ => no_reading(),
        },
        Phase::Finished { distance_nm } => (phase, Action::Report { distance_nm }),
    }
}

/// A measurement in progress on a configured ranging module.
pub struct Measurement {
    config: RangeConfig,
    phase: Phase,
}

impl Measurement {
    /// The configuration the measurement runs with.
    pub closed spec fn config_spec(&self) -> RangeConfig {
        self.config
    }

    /// Where the measurement stands.
    pub closed spec fn phase_spec(&self) -> Phase {
        self.phase
    }

    /// Starts a measurement: the trigger line is to go high first.
    pub fn start(config: RangeConfig) -> (r: (Measurement, Action))
        ensures
            r.0.config_spec() == config,
            r.0.phase_spec() == Phase::Raising,
            r.1 == (Action::SetTrigger { level: 1 }),
    {
        (Measurement { config, phase: Phase::Raising }, Action::SetTrigger { level: 1 })
    }

    /// Where the measurement stands.
    pub fn phase(&self) -> (r: Phase)
        ensures
            r == self.phase_spec(),
    {
        self.phase
    }

    /// Whether the measurement is over.
    pub fn is_finished(&self) -> (r: bool)
        ensures
            r == self.phase_spec() is Finished,
    {
        matches!(self.phase, Phase::Finished { .. })
    }

    /// Takes in what came of the last action and returns the next one.
    pub fn step(&mut self, event: Event) -> (a: Action)
        ensures
            final(self).config_spec() == old(self).config_spec(),
            (final(self).phase_spec(), a) == next(
                old(self).config_spec(),
                old(self).phase_spec(),
                event,
            ),
    {
        let (phase, action) = match self.phase {
            Phase::Raising => match event {
                Event::Done => (Phase::Holding, Action::Hold { nanos: TRIGGER_HOLD_NANOS }),
                _ => (Phase::Lowering { aborted: true }, Action::SetTrigger { level: 0 }),
            },
            Phase::Holding => (Phase::Lowering { aborted: false }, Action::SetTrigger { level: 0 }),
            Phase::Lowering { aborted } => match event {
                Event::Done => if aborted {
                    Self::ended()
                } else {
                    (Phase::Arming, Action::Arm)
                },
                _ => Self::ended(),
            },
            Phase::Arming => match event {
                Event::Done => (Phase::AwaitActive, Action::WaitEdge { timeout_ms: self.config.wait_ms() }),
                _ => Self::ended(),
            },
            Phase::AwaitActive => match event {
                Event::Edge { level, secs, subsec_nanos } => if level == ACTIVE_LEVEL {
                    (
                        Phase::AwaitInactive { start: to_nanos(secs, subsec_nanos) },
                        Action::WaitEdge { timeout_ms: self.config.wait_ms() },
                    )
                } else {
                    Self::ended()
                },
                _ => Self::ended(),
            },
            Phase::AwaitInactive { start } => match event {
                Event::Edge { level, secs, subsec_nanos } => if level != ACTIVE_LEVEL {
                    let d = Self::reading(
                        start,
                        to_nanos(secs, subsec_nanos),
                        self.config.timeout_nanos(),
                    );
                    (Phase::Finished { distance_nm: d }, Action::Report { distance_nm: d })
                } else {
                    Self::ended()
                },
                _ => Self::ended(),
            },
            Phase::Finished { distance_nm } => (self.phase, Action::Report { distance_nm }),
        };
        self.phase = phase;
        action
    }

    fn ended() -> (r: (Phase, Action))
        ensures
            r == no_reading(),
    {
        (Phase::Finished { distance_nm: None }, Action::Report { distance_nm: None })
    }

    /// The distance for an echo pulse from `start` to `end`, in nanoseconds,
    /// or none when it runs backwards or lasts longer than `timeout_nanos`.
    pub fn reading(start: u128, end: u128, timeout_nanos: u64) -> (r: Option<u128>)
        ensures
            r == reading_of(start as nat, end as nat, timeout_nanos as nat),
    {
        if end < start || end - start > timeout_nanos as u128 {
            None
        } else {
            distance_nm(end - start)
        }
    }
}

/// Whether the trigger line may be high in `phase`.
pub open spec fn trigger_raised(phase: Phase) -> bool {
    phase is Raising || phase is Holding
}

/// An edge wait asks for the timeout rounded up to a whole millisecond: never
/// less than the timeout, and less than a millisecond more.
pub proof fn lemma_wait_covers_timeout(config: RangeConfig)
    requires
        config.wf(),
    ensures
        next(config, Phase::Arming, Event::Done) == (
            Phase::AwaitActive,
            Action::WaitEdge { timeout_ms: wait_ms_of(config.timeout_spec()) as u64 },
        ),
        wait_ms_of(config.timeout_spec()) <= MAX_WAIT_MS,
        wait_ms_of(config.timeout_spec()) * NANOS_PER_MILLISECOND >= config.timeout_spec(),
        wait_ms_of(config.timeout_spec()) * NANOS_PER_MILLISECOND < config.timeout_spec()
            + NANOS_PER_MILLISECOND,
{
    let t = config.timeout_spec();
    let w = wait_ms_of(t);
    assert(w * 1_000_000 >= t && w * 1_000_000 < t + 1_000_000) by (nonlinear_arith)
        requires
            w == (t + 999_999) / 1_000_000,
    ;
}

/// When the echo line does not become active within one edge wait (the wait
/// times out, fails, or sees the line inactive), the measurement ends without
/// a reading.
pub proof fn lemma_active_edge_missed(config: RangeConfig, event: Event)
    requires
        !(event is Edge && event->Edge_level == ACTIVE_LEVEL),
    ensures
        next(config, Phase::AwaitActive, event) == no_reading(),
{
}

/// Once the echo line is active, it is awaited to fall with a fresh wait of the
/// full timeout; when it does not fall within that wait, the measurement ends
/// without a reading.
pub proof fn lemma_inactive_edge_missed(
    config: RangeConfig,
    level: u8,
    secs: u64,
    subsec_nanos: u32,
    event: Event,
)
    requires
        level == ACTIVE_LEVEL,
        !(event is Edge && event->Edge_level != ACTIVE_LEVEL),
    ensures
        next(config, Phase::AwaitActive, Event::Edge { level, secs, subsec_nanos }) == (
            Phase::AwaitInactive {
                start: total_nanos_of(secs as nat, subsec_nanos as nat) as u128,
            },
            Action::WaitEdge { timeout_ms: wait_ms_of(config.timeout_spec()) as u64 },
        ),
        next(
            config,
            Phase::AwaitInactive {
                start: total_nanos_of(secs as nat, subsec_nanos as nat) as u128,
            },
            event,
        ) == no_reading(),
{
}

/// An echo pulse of width `w` nanoseconds, no longer than the timeout, gives
/// the distance sound covers in half that time: `w * 34000 cm/s / 2`, exactly,
/// in nanometres.
pub proof fn lemma_pulse_width_distance(
    config: RangeConfig,
    start: u128,
    level: u8,
    secs: u64,
    subsec_nanos: u32,
)
    requires
        level != ACTIVE_LEVEL,
        start <= total_nanos_of(secs as nat, subsec_nanos as nat),
        total_nanos_of(secs as nat, subsec_nanos as nat) - start <= config.timeout_spec(),
    ensures
        ({
            let w = total_nanos_of(secs as nat, subsec_nanos as nat) - start;
            let d = w * 170;
            &&& d * (2 * NANOS_PER_SECOND) == w * SPEED_OF_SOUND_CM * NANOMETERS_PER_CM
            &&& next(
                config,
                Phase::AwaitInactive { start },
                Event::Edge { level, secs, subsec_nanos },
            ) == (
                Phase::Finished { distance_nm: Some(d as u128) },
                Action::Report { distance_nm: Some(d as u128) },
            )
        }),
{
    let end = total_nanos_of(secs as nat, subsec_nanos as nat);
    let w = (end - start) as nat;
    assert(end <= (u64::MAX as nat) * 1_000_000_000 + (u32::MAX as nat)) by (nonlinear_arith)
        requires
            end == (secs as nat) * 1_000_000_000 + (subsec_nanos as nat),
            secs <= u64::MAX,
            subsec_nanos <= u32::MAX,
    ;
    assert(distance_nm_of(w) == w * 170) by (nonlinear_arith)
        requires
            distance_nm_of(w) == (w * 34_000 * 10_000_000) / 2_000_000_000,
    ;
}

/// An echo pulse that lasts longer than the timeout gives no reading.
pub proof fn lemma_long_pulse_no_reading(
    config: RangeConfig,
    start: u128,
    level: u8,
    secs: u64,
    subsec_nanos: u32,
)
    requires
        start + config.timeout_spec() < total_nanos_of(secs as nat, subsec_nanos as nat),
    ensures
        next(config, Phase::AwaitInactive { start }, Event::Edge { level, secs, subsec_nanos })
            == no_reading(),
{
}

/// Every reading lies within the configured range: its pulse is no longer than
/// the timeout, and the distance is at most the maximum distance.
pub proof fn lemma_reading_within_range(config: RangeConfig, start: nat, end: nat)
    requires
        config.wf(),
        reading_of(start, end, config.timeout_spec()) is Some,
    ensures
        start <= end,
        end - start <= config.timeout_spec(),
        reading_of(start, end, config.timeout_spec())->Some_0 <= config.max_distance_spec()
            * NANOMETERS_PER_CM,
{
    let w = (end - start) as nat;
    let t = config.timeout_spec();
    let d = config.max_distance_spec();
    assert(distance_nm_of(w) <= d * 10_000_000) by (nonlinear_arith)
        requires
            distance_nm_of(w) == (w * 34_000 * 10_000_000) / 2_000_000_000,
            w <= t,
            t == (2 * d * 1_000_000_000) / 34_000,
    ;
}

/// While the trigger line may be high, no event ends the measurement: the
/// line is held for ten microseconds once raised and is then driven low, and
/// only after that can a report come.
pub proof fn lemma_trigger_lowered_before_report(config: RangeConfig, phase: Phase, event: Event)
    requires
        trigger_raised(phase),
    ensures
        !(next(config, phase, event).1 is Report),
        phase is Raising && event is Done ==> next(config, phase, event).1 == (Action::Hold {
            nanos: TRIGGER_HOLD_NANOS,
        }),
        phase is Holding ==> next(config, phase, event).1 == (Action::SetTrigger { level: 0 }),
        trigger_raised(next(config, phase, event).0) ==> phase is Raising && event is Done,
        !(next(config, phase, event).1 is SetTrigger && next(config, phase, event).1->level
            == 1),
{
}

/// Outside the trigger phases, the machine never drives the trigger line high
/// again: the only action that raises it is the first one of a measurement.
pub proof fn lemma_trigger_stays_low(config: RangeConfig, phase: Phase, event: Event)
    requires
        !trigger_raised(phase),
    ensures
        !trigger_raised(next(config, phase, event).0),
        !(next(config, phase, event).1 is SetTrigger),
{
}

} // verus!
