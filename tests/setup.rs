use sonar::setup::{setup_next, setup_start, Line, LineDirection, SetupAction, SetupEvent, SetupPhase};

fn run(events: &[SetupEvent]) -> Vec<SetupAction> {
    let (mut phase, first) = setup_start();
    let mut actions = vec![first];
    for e in events {
        let (p, a) = setup_next(phase, *e);
        phase = p;
        actions.push(a);
    }
    actions
}

#[test]
fn setup_exports_and_configures_both_lines() {
    let actions = run(&[
        SetupEvent::Exported { exported: false },
        SetupEvent::Done,
        SetupEvent::Done,
        SetupEvent::Done,
        SetupEvent::Exported { exported: false },
        SetupEvent::Done,
        SetupEvent::Done,
    ]);
    assert_eq!(
        actions,
        vec![
            SetupAction::QueryExported { line: Line::Echo },
            SetupAction::Export { line: Line::Echo },
            SetupAction::SetDirection { line: Line::Echo, direction: LineDirection::In },
            SetupAction::EnableBothEdges,
            SetupAction::QueryExported { line: Line::Trigger },
            SetupAction::Export { line: Line::Trigger },
            SetupAction::SetDirection { line: Line::Trigger, direction: LineDirection::Out },
            SetupAction::Finish { configured: true },
        ]
    );
}

#[test]
fn setup_skips_export_of_exported_lines() {
    let actions = run(&[
        SetupEvent::Exported { exported: true },
        SetupEvent::Done,
        SetupEvent::Done,
        SetupEvent::Exported { exported: true },
        SetupEvent::Done,
    ]);
    assert_eq!(actions.len(), 6);
    assert_eq!(actions[1], SetupAction::SetDirection { line: Line::Echo, direction: LineDirection::In });
    assert_eq!(actions[4], SetupAction::SetDirection { line: Line::Trigger, direction: LineDirection::Out });
    assert_eq!(actions[5], SetupAction::Finish { configured: true });
}

#[test]
fn setup_failure_at_any_step_refuses() {
    let good = [
        SetupEvent::Exported { exported: false },
        SetupEvent::Done,
        SetupEvent::Done,
        SetupEvent::Done,
        SetupEvent::Exported { exported: false },
        SetupEvent::Done,
        SetupEvent::Done,
    ];
    for i in 0..good.len() {
        let mut events: Vec<SetupEvent> = good[..i].to_vec();
        events.push(SetupEvent::Failed);
        events.extend_from_slice(&good[i..]);
        let actions = run(&events);
        assert_eq!(actions[i + 1], SetupAction::Finish { configured: false });
        assert_eq!(*actions.last().unwrap(), SetupAction::Finish { configured: false });
    }
}

#[test]
fn refused_setup_stays_refused() {
    assert_eq!(
        setup_next(SetupPhase::Refused, SetupEvent::Done),
        (SetupPhase::Refused, SetupAction::Finish { configured: false })
    );
}
