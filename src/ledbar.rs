//! An LED bar: GPIO lines addressed by logical index, the lowest line at
//! index 0 and the highest at the last index, and the rippling sequence that
//! turns each LED on, waits, and turns it off again, in index order, stopping
//! at the first operation that fails.
use vstd::prelude::*;

verus! {

pub struct LEDBar {
    gpios: Vec<u64>,
}

impl LEDBar {
    /// The GPIO line numbers, by logical index.
    pub closed spec fn view(&self) -> Seq<u64> {
        self.gpios@
    }

    /// Creates an LED bar over `gpios`, given in order.
    pub fn new(gpios: Vec<u64>) -> (r: LEDBar)
        ensures
            r@ == gpios@,
    {
        LEDBar { gpios }
    }

    /// The number of LEDs.
    pub fn len(&self) -> (r: usize)
        ensures
            r == self@.len(),
    {
        self.gpios.len()
    }

    /// The GPIO line of the LED at logical index `i`, or `None` when there is
    /// no such LED.
    pub fn gpio(&self, i: usize) -> (r: Option<u64>)
        ensures
            r is Some <==> i < self@.len(),
            r is Some ==> r->Some_0 == self@[i as int],
    {
        if i < self.gpios.len() {
            Some(self.gpios[i])
        } else {
            None
        }
    }
}

/// Where a rippling sequence stands.
#[derive(Debug, Clone, Copy, PartialEq, Eq, Structural)]
pub enum FlowPhase {
    /// The LED at `index` was asked to turn on.
    TurningOn { index: usize },
    /// The LED at `index` is on for the wait.
    Waiting { index: usize },
    /// The LED at `index` was asked to turn off.
    TurningOff { index: usize },
    /// The sequence is over; `ok` when every operation succeeded.
    Finished { ok: bool },
}

/// What the sequence asks its caller to do next.
#[derive(Debug, Clone, Copy, PartialEq, Eq, Structural)]
pub enum FlowAction {
    On { index: usize },
    Wait,
    Off { index: usize },
    Finish { ok: bool },
}

/// What came of the last operation.
#[derive(Debug, Clone, Copy, PartialEq, Eq, Structural)]
pub enum FlowEvent {
    Done,
    Failed,
}

/// The first phase and operation of a sequence over `len` LEDs.
pub open spec fn flow_start_spec(len: nat) -> (FlowPhase, FlowAction) {
    if len == 0 {
        (FlowPhase::Finished { ok: true }, FlowAction::Finish { ok: true })
    } else {
        (FlowPhase::TurningOn { index: 0 }, FlowAction::On { index: 0 })
    }
}

/// The phase that follows `phase` on `event` in a sequence over `len` LEDs,
/// and the operation asked for then.
pub open spec fn flow_next_spec(len: nat, phase: FlowPhase, event: FlowEvent) -> (
    FlowPhase,
    FlowAction,
) {
    let failed = (FlowPhase::Finished { ok: false }, FlowAction::Finish { ok: false });
    match phase {
        FlowPhase::TurningOn { index } => if event is Done {
            (FlowPhase::Waiting { index }, FlowAction::Wait)
        } else {
            failed
        },
        FlowPhase::Waiting { index } => (
            FlowPhase::TurningOff { index },
            FlowAction::Off { index },
        ),
        FlowPhase::TurningOff { index } => if event is Failed {
            failed
        } else if index + 1 < len {
            (
                FlowPhase::TurningOn { index: (index + 1) as usize },
                FlowAction::On { index: (index + 1) as usize },
            )
        } else {
            (FlowPhase::Finished { ok: true }, FlowAction::Finish { ok: true })
        },
        FlowPhase::Finished { ok } => (phase, FlowAction::Finish { ok }),
    }
}

/// Starts a rippling sequence over `len` LEDs.
pub fn flow_start(len: usize) -> (r: (FlowPhase, FlowAction))
    ensures
        r == flow_start_spec(len as nat),
{
    if len == 0 {
        (FlowPhase::Finished { ok: true }, FlowAction::Finish { ok: true })
    } else {
        (FlowPhase::TurningOn { index: 0 }, FlowAction::On { index: 0 })
    }
}

/// The phase that follows `phase` on `event` in a sequence over `len` LEDs,
/// and the operation asked for then.
pub fn flow_next(len: usize, phase: FlowPhase, event: FlowEvent) -> (r: (FlowPhase, FlowAction))
    ensures
        r == flow_next_spec(len as nat, phase, event),
{
    let failed = (FlowPhase::Finished { ok: false }, FlowAction::Finish { ok: false });
    let done = matches!(event, FlowEvent::Done);
    match phase {
        FlowPhase::TurningOn { index } => if done {
            (FlowPhase::Waiting { index }, FlowAction::Wait)
        } else {
            failed
        },
        FlowPhase::Waiting { index } => (
            FlowPhase::TurningOff { index },
            FlowAction::Off { index },
        ),
        FlowPhase::TurningOff { index } => if !done {
            failed
        } else if index < len && len - index > 1 {
            (FlowPhase::TurningOn { index: index + 1 }, FlowAction::On { index: index + 1 })
        } else {
            (FlowPhase::Finished { ok: true }, FlowAction::Finish { ok: true })
        },
        FlowPhase::Finished { ok } => (phase, FlowAction::Finish { ok }),
    }
}

/// Every LED that the sequence addresses exists: from a phase whose index is
/// in range, the next operation names an index in range.
pub proof fn lemma_flow_indices_in_range(len: nat, phase: FlowPhase, event: FlowEvent)
    requires
        flow_index_in_range(len, phase),
    ensures
        flow_index_in_range(len, flow_next_spec(len, phase, event).0),
        flow_next_spec(len, phase, event).1 is On ==> flow_next_spec(len, phase, event).1->On_index
            < len,
        flow_next_spec(len, phase, event).1 is Off ==> flow_next_spec(len, phase, event).1->Off_index
            < len,
{
}

/// Whether the index that `phase` names, if any, is below `len`.
pub open spec fn flow_index_in_range(len: nat, phase: FlowPhase) -> bool {
    match phase {
        FlowPhase::TurningOn { index } => index < len,
        FlowPhase::Waiting { index } => index < len,
        FlowPhase::TurningOff { index } => index < len,
        FlowPhase::Finished { .. } => true,
    }
}

} // verus!
