//! Configuration of an ultrasonic ranging module: the per-edge timeout derived
//! from the largest distance to measure, and the conversion of an echo pulse
//! width into a distance.
use vstd::prelude::*;

verus! {

pub const NANOS_PER_SECOND: u64 = 1_000_000_000;

pub const NANOS_PER_MILLISECOND: u64 = 1_000_000;

/// Speed of sound in metres per second.
pub const SPEED_OF_SOUND: u64 = 340;

/// Speed of sound in centimetres per second.
pub const SPEED_OF_SOUND_CM: u64 = SPEED_OF_SOUND * 100;

pub const NANOMETERS_PER_CM: u64 = 10_000_000;

/// The longest wait, in milliseconds, that the edge-wait primitive accepts
/// (it is handed on to the kernel as a C `int`).
pub const MAX_WAIT_MS: u64 = 2_147_483_647;

/// Time in nanoseconds for sound to travel `max_distance_cm` and back,
/// rounded down to a whole nanosecond.
pub open spec fn timeout_nanos_of(max_distance_cm: nat) -> nat {
    (2 * max_distance_cm * (NANOS_PER_SECOND as nat)) / (SPEED_OF_SOUND_CM as nat)
}

/// The timeout in whole milliseconds, rounded up, as handed to the edge wait.
pub open spec fn wait_ms_of(timeout_nanos: nat) -> nat {
    ((timeout_nanos + NANOS_PER_MILLISECOND - 1) / (NANOS_PER_MILLISECOND as int)) as nat
}

/// Distance in nanometres to a target whose echo pulse lasted `elapsed_nanos`:
/// the pulse covers the way there and back at the speed of sound.
pub open spec fn distance_nm_of(elapsed_nanos: nat) -> nat {
    (elapsed_nanos * (SPEED_OF_SOUND_CM as nat) * (NANOMETERS_PER_CM as nat)) / (2 * (NANOS_PER_SECOND as nat))
}

/// A total time in nanoseconds from whole seconds and the nanoseconds past them.
pub open spec fn total_nanos_of(secs: nat, subsec_nanos: nat) -> nat {
    secs * (NANOS_PER_SECOND as nat) + subsec_nanos
}

/// Whether a module configured for `max_distance_cm` can be driven: the
/// distance is positive and its timeout fits the edge-wait primitive.
pub open spec fn distance_accepted(max_distance_cm: nat) -> bool {
    max_distance_cm > 0 && wait_ms_of(timeout_nanos_of(max_distance_cm)) <= MAX_WAIT_MS
}

/// Why a maximum distance is refused.
#[derive(Debug, Clone, Copy, PartialEq, Eq, Structural)]
pub enum DistanceError {
    /// The maximum distance is zero.
    Zero,
    /// The timeout of the maximum distance is longer than an edge wait can last.
    TooLarge,
}

/// The fixed configuration of a ranging module.
#[derive(Debug, Clone, Copy, PartialEq, Eq, Structural)]
pub struct RangeConfig {
    max_distance: u64,
    timeout_nanos: u64,
}

impl RangeConfig {
    /// The largest distance to measure, in centimetres.
    pub closed spec fn max_distance_spec(&self) -> nat {
        self.max_distance as nat
    }

    /// The per-edge timeout in nanoseconds.
    pub closed spec fn timeout_spec(&self) -> nat {
        self.timeout_nanos as nat
    }

    /// The distance is accepted and the timeout is the one it gives.
    /// Every value of this type is well formed.
    pub open spec fn wf(&self) -> bool {
        &&& distance_accepted(self.max_distance_spec())
        &&& self.timeout_spec() == timeout_nanos_of(self.max_distance_spec())
    }

    #[verifier::type_invariant]
    spec fn inv(&self) -> bool {
        &&& distance_accepted(self.max_distance as nat)
        &&& self.timeout_nanos as nat == timeout_nanos_of(self.max_distance as nat)
    }

    /// Configures a module for distances up to `max_distance` centimetres.
    pub fn new(max_distance: u64) -> (r: Result<RangeConfig, DistanceError>)
        ensures
            r is Ok <==> distance_accepted(max_distance as nat),
            r == Err::<RangeConfig, DistanceError>(DistanceError::Zero) <==> max_distance == 0,
            r == Err::<RangeConfig, DistanceError>(DistanceError::TooLarge) <==> (max_distance > 0
                && !distance_accepted(max_distance as nat)),
            r is Ok ==> r->Ok_0.wf() && r->Ok_0.max_distance_spec() == max_distance,
            r is Ok ==> r->Ok_0.timeout_spec() >= timeout_nanos_of(1) > 0,
    {
        if max_distance == 0 {
            return Err(DistanceError::Zero);
        }
        if max_distance > 1 {
            proof {
                lemma_timeout_positive_and_increasing(1, max_distance as nat);
            }
        }
        assert(2 * (max_distance as int) * 1_000_000_000 <= 2 * (u64::MAX as int) * 1_000_000_000)
            by (nonlinear_arith);
        let total: u128 = 2 * (max_distance as u128) * (NANOS_PER_SECOND as u128);
        let timeout: u128 = total / (SPEED_OF_SOUND_CM as u128);
        let ms: u128 = (timeout + (NANOS_PER_MILLISECOND as u128) - 1) / (NANOS_PER_MILLISECOND as u128);
        if ms > MAX_WAIT_MS as u128 {
            return Err(DistanceError::TooLarge);
        }
        assert(timeout <= u64::MAX) by (nonlinear_arith)
            requires
                ms <= MAX_WAIT_MS,
                ms == (timeout + 999_999) / 1_000_000,
        ;
        Ok(RangeConfig { max_distance, timeout_nanos: timeout as u64 })
    }

    /// The largest distance to measure, in centimetres.
    pub fn max_distance(&self) -> (r: u64)
        ensures
            r == self.max_distance_spec(),
    {
        self.max_distance
    }

    /// The longest time, in nanoseconds, that either edge of an echo pulse is
    /// awaited. Asking for it also shows that the configuration is well formed.
    pub fn timeout_nanos(&self) -> (r: u64)
        ensures
            r == self.timeout_spec(),
            self.wf(),
    {
        proof {
            use_type_invariant(self);
        }
        self.timeout_nanos
    }

    /// The timeout in whole milliseconds, rounded up, for the edge-wait primitive.
    pub fn wait_ms(&self) -> (r: u64)
        ensures
            r == wait_ms_of(self.timeout_spec()),
            r <= MAX_WAIT_MS,
            r * NANOS_PER_MILLISECOND >= self.timeout_spec(),
            r * NANOS_PER_MILLISECOND < self.timeout_spec() + NANOS_PER_MILLISECOND,
    {
        proof {
            use_type_invariant(self);
        }
        let r = (self.timeout_nanos as u128 + (NANOS_PER_MILLISECOND as u128) - 1)
            / (NANOS_PER_MILLISECOND as u128);
        r as u64
    }
}

/// Nanoseconds in a time span of `secs` whole seconds and `subsec_nanos` more.
pub fn to_nanos(secs: u64, subsec_nanos: u32) -> (r: u128)
    ensures
        r == total_nanos_of(secs as nat, subsec_nanos as nat),
{
    assert((secs as int) * 1_000_000_000 <= (u64::MAX as int) * 1_000_000_000) by (nonlinear_arith);
    (secs as u128) * (NANOS_PER_SECOND as u128) + (subsec_nanos as u128)
}

/// Distance in nanometres to a target whose echo pulse lasted `elapsed_nanos`.
pub fn distance_nm(elapsed_nanos: u128) -> (r: Option<u128>)
    ensures
        r is Some <==> distance_nm_of(elapsed_nanos as nat) <= u128::MAX,
        r is Some ==> r->Some_0 == distance_nm_of(elapsed_nanos as nat),
{
    assert(distance_nm_of(elapsed_nanos as nat) == elapsed_nanos * 170) by (nonlinear_arith)
        requires
            distance_nm_of(elapsed_nanos as nat) == (elapsed_nanos * 34_000 * 10_000_000) / 2_000_000_000,
    ;
    elapsed_nanos.checked_mul(170)
}

/// The timeout of every accepted maximum distance is positive, and a larger
/// maximum distance has a longer timeout.
pub proof fn lemma_timeout_positive_and_increasing(a: nat, b: nat)
    requires
        0 < a,
        a < b,
    ensures
        0 < timeout_nanos_of(a),
        timeout_nanos_of(a) < timeout_nanos_of(b),
{
    assert(timeout_nanos_of(a) < timeout_nanos_of(b)) by (nonlinear_arith)
        requires
            0 < a < b,
            timeout_nanos_of(a) == (2 * a * 1_000_000_000) / 34_000,
            timeout_nanos_of(b) == (2 * b * 1_000_000_000) / 34_000,
    ;
}

/// The timeout is the round-trip time of sound over the maximum distance,
/// `2 * distance / 340 m/s`, rounded down to a whole nanosecond.
pub proof fn lemma_timeout_round_trip(max_distance_cm: nat)
    ensures
        timeout_nanos_of(max_distance_cm) * SPEED_OF_SOUND_CM <= 2 * max_distance_cm * NANOS_PER_SECOND,
        2 * max_distance_cm * NANOS_PER_SECOND < (timeout_nanos_of(max_distance_cm) + 1) * SPEED_OF_SOUND_CM,
{
    let t = timeout_nanos_of(max_distance_cm);
    assert(t * 34_000 <= 2 * max_distance_cm * 1_000_000_000 < (t + 1) * 34_000) by (nonlinear_arith)
        requires
            t == (2 * max_distance_cm * 1_000_000_000) / 34_000,
    ;
}

} // verus!
