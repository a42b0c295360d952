//! Configuration of a ranging module's two lines, as a state machine.
//!
//! The echo line is exported if it is not yet, set to input and armed to
//! notify on both edges; then the trigger line is exported if it is not yet and
//! set to output. The first operation that fails ends the setup unsuccessfully.
use vstd::prelude::*;

verus! {

/// One of the module's two lines.
#[derive(Debug, Clone, Copy, PartialEq, Eq, Structural)]
pub enum Line {
    Echo,
    Trigger,
}

/// The direction a line is set to.
#[derive(Debug, Clone, Copy, PartialEq, Eq, Structural)]
pub enum LineDirection {
    In,
    Out,
}

/// Where the setup stands: each phase names the operation last asked for.
#[derive(Debug, Clone, Copy, PartialEq, Eq, Structural)]
pub enum SetupPhase {
    EchoQuery,
    EchoExport,
    EchoDirection,
    EchoEdges,
    TriggerQuery,
    TriggerExport,
    TriggerDirection,
    /// Both lines are configured.
    Configured,
    /// An operation failed.
    Refused,
}

/// What the setup asks its caller to do next.
#[derive(Debug, Clone, Copy, PartialEq, Eq, Structural)]
pub enum SetupAction {
    /// Tell whether `line` is exported.
    QueryExported { line: Line },
    /// Export `line`.
    Export { line: Line },
    /// Set the direction of `line`.
    SetDirection { line: Line, direction: LineDirection },
    /// Arm the echo line to notify on rising and falling edges.
    EnableBothEdges,
    /// The setup is over: whether both lines are configured.
    Finish { configured: bool },
}

/// What came of the last operation.
#[derive(Debug, Clone, Copy, PartialEq, Eq, Structural)]
pub enum SetupEvent {
    /// It completed.
    Done,
    /// It failed.
    Failed,
    /// The line asked about is exported, or not.
    Exported { exported: bool },
}

pub open spec fn refused() -> (SetupPhase, SetupAction) {
    (SetupPhase::Refused, SetupAction::Finish { configured: false })
}

/// The phase that follows `phase` on `event`, and the operation asked for then.
pub open spec fn setup_next_spec(phase: SetupPhase, event: SetupEvent) -> (SetupPhase, SetupAction) {
    let echo_in = (
        SetupPhase::EchoDirection,
        SetupAction::SetDirection { line: Line::Echo, direction: LineDirection::In },
    );
    let trigger_out = (
        SetupPhase::TriggerDirection,
        SetupAction::SetDirection { line: Line::Trigger, direction: LineDirection::Out },
    );
    match phase {
        SetupPhase::EchoQuery => match event {
            SetupEvent::Exported { exported } => if exported {
                echo_in
            } else {
                (SetupPhase::EchoExport, SetupAction::Export { line: Line::Echo })
            },
            _ => refused(),
        },
        SetupPhase::EchoExport => if event is Done { echo_in } else { refused() },
        SetupPhase::EchoDirection => if event is Done {
            (SetupPhase::EchoEdges, SetupAction::EnableBothEdges)
        } else {
            refused()
        },
        SetupPhase::EchoEdges => if event is Done {
            (SetupPhase::TriggerQuery, SetupAction::QueryExported { line: Line::Trigger })
        } else {
            refused()
        },
        SetupPhase::TriggerQuery => match event {
            SetupEvent::Exported { exported } => if exported {
                trigger_out
            } else {
                (SetupPhase::TriggerExport, SetupAction::Export { line: Line::Trigger })
            },
            _ => refused(),
        },
        SetupPhase::TriggerExport => if event is Done { trigger_out } else { refused() },
        SetupPhase::TriggerDirection => if event is Done {
            (SetupPhase::Configured, SetupAction::Finish { configured: true })
        } else {
            refused()
        },
        SetupPhase::Configured => (phase, SetupAction::Finish { configured: true }),
        SetupPhase::Refused => refused(),
    }
}

/// The first phase and operation of a setup: ask whether the echo line is exported.
pub fn setup_start() -> (r: (SetupPhase, SetupAction))
    ensures
        r == (SetupPhase::EchoQuery, SetupAction::QueryExported { line: Line::Echo }),
{
    (SetupPhase::EchoQuery, SetupAction::QueryExported { line: Line::Echo })
}

/// The phase that follows `phase` on `event`, and the operation asked for then.
pub fn setup_next(phase: SetupPhase, event: SetupEvent) -> (r: (SetupPhase, SetupAction))
    ensures
        r == setup_next_spec(phase, event),
{
    let echo_in = (
        SetupPhase::EchoDirection,
        SetupAction::SetDirection { line: Line::Echo, direction: LineDirection::In },
    );
    let trigger_out = (
        SetupPhase::TriggerDirection,
        SetupAction::SetDirection { line: Line::Trigger, direction: LineDirection::Out },
    );
    let fail = (SetupPhase::Refused, SetupAction::Finish { configured: false });
    let done = matches!(event, SetupEvent::Done);
    match phase {
        SetupPhase::EchoQuery => match event {
            SetupEvent::Exported { exported } => if exported {
                echo_in
            } else {
                (SetupPhase::EchoExport, SetupAction::Export { line: Line::Echo })
            },
            _ => fail,
        },
        SetupPhase::EchoExport => if done { echo_in } else { fail },
        SetupPhase::EchoDirection => if done {
            (SetupPhase::EchoEdges, SetupAction::EnableBothEdges)
        } else {
            fail
        },
        SetupPhase::EchoEdges => if done {
            (SetupPhase::TriggerQuery, SetupAction::QueryExported { line: Line::Trigger })
        } else {
            fail
        },
        SetupPhase::TriggerQuery => match event {
            SetupEvent::Exported { exported } => if exported {
                trigger_out
            } else {
                (SetupPhase::TriggerExport, SetupAction::Export { line: Line::Trigger })
            },
            _ => fail,
        },
        SetupPhase::TriggerExport => if done { trigger_out } else { fail },
        SetupPhase::TriggerDirection => if done {
            (SetupPhase::Configured, SetupAction::Finish { configured: true })
        } else {
            fail
        },
        SetupPhase::Configured => (phase, SetupAction::Finish { configured: true }),
        SetupPhase::Refused => fail,
    }
}

/// A failed operation ends the setup unsuccessfully, and an unsuccessful setup
/// stays so: the module is configured only when every operation succeeded.
pub proof fn lemma_failure_refuses(phase: SetupPhase)
    requires
        phase != SetupPhase::Configured,
    ensures
        setup_next_spec(phase, SetupEvent::Failed) == refused(),
        forall|e: SetupEvent| #[trigger] setup_next_spec(SetupPhase::Refused, e) == refused(),
{
}

/// The run of a setup over `events`, from `phase`: the phase it ends in.
pub open spec fn setup_run(phase: SetupPhase, events: Seq<SetupEvent>) -> SetupPhase
    decreases events.len(),
{
    if events.len() == 0 {
        phase
    } else {
        setup_run(setup_next_spec(phase, events[0]).0, events.drop_first())
    }
}

/// An operation that fails while the setup is under way ends it unsuccessfully,
/// whatever follows: the module is configured only when every operation up to
/// the last one succeeded.
pub proof fn lemma_failed_setup_not_configured(events: Seq<SetupEvent>, i: int)
    requires
        0 <= i < events.len(),
        events[i] == SetupEvent::Failed,
        setup_run(SetupPhase::EchoQuery, events.take(i)) != SetupPhase::Configured,
    ensures
        setup_run(SetupPhase::EchoQuery, events) == SetupPhase::Refused,
{
    lemma_run_with_failure(SetupPhase::EchoQuery, events, i);
}

proof fn lemma_run_stays(phase: SetupPhase, events: Seq<SetupEvent>)
    requires
        phase == SetupPhase::Configured || phase == SetupPhase::Refused,
    ensures
        setup_run(phase, events) == phase,
    decreases events.len(),
{
    if events.len() > 0 {
        lemma_run_stays(phase, events.drop_first());
    }
}

proof fn lemma_run_with_failure(phase: SetupPhase, events: Seq<SetupEvent>, i: int)
    requires
        0 <= i < events.len(),
        events[i] == SetupEvent::Failed,
        setup_run(phase, events.take(i)) != SetupPhase::Configured,
    ensures
        setup_run(phase, events) == SetupPhase::Refused,
    decreases events.len(),
{
    if phase == SetupPhase::Configured {
        lemma_run_stays(phase, events.take(i));
    } else if i == 0 {
        lemma_run_stays(SetupPhase::Refused, events.drop_first());
    } else {
        let rest = events.drop_first();
        assert(events.take(i).drop_first() =~= rest.take(i - 1));
        lemma_run_with_failure(setup_next_spec(phase, events[0]).0, rest, i - 1);
    }
}

} // verus!
