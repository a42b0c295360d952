use sonar::ledbar::{flow_next, flow_start, FlowAction, FlowEvent, FlowPhase, LEDBar};

#[test]
fn ledbar_indexes_lines_in_order() {
    let bar = LEDBar::new(vec![17, 18, 27]);
    assert_eq!(bar.len(), 3);
    assert_eq!(bar.gpio(0), Some(17));
    assert_eq!(bar.gpio(2), Some(27));
    assert_eq!(bar.gpio(3), None);
    assert_eq!(LEDBar::new(vec![]).gpio(0), None);
}

fn flow_actions(len: usize, events: &[FlowEvent]) -> Vec<FlowAction> {
    let (mut phase, first) = flow_start(len);
    let mut actions = vec![first];
    for e in events {
        let (p, a) = flow_next(len, phase, *e);
        phase = p;
        actions.push(a);
    }
    actions
}

#[test]
fn flow_ripples_in_index_order() {
    let actions = flow_actions(2, &[FlowEvent::Done; 6]);
    assert_eq!(
        actions,
        vec![
            FlowAction::On { index: 0 },
            FlowAction::Wait,
            FlowAction::Off { index: 0 },
            FlowAction::On { index: 1 },
            FlowAction::Wait,
            FlowAction::Off { index: 1 },
            FlowAction::Finish { ok: true },
        ]
    );
}

#[test]
fn flow_over_no_leds_finishes_at_once() {
    assert_eq!(flow_start(0), (FlowPhase::Finished { ok: true }, FlowAction::Finish { ok: true }));
}

#[test]
fn flow_stops_at_first_failure() {
    let actions = flow_actions(3, &[FlowEvent::Done, FlowEvent::Done, FlowEvent::Failed, FlowEvent::Done]);
    assert_eq!(actions[3], FlowAction::Finish { ok: false });
    assert_eq!(actions[4], FlowAction::Finish { ok: false });
    let actions = flow_actions(3, &[FlowEvent::Failed]);
    assert_eq!(actions[1], FlowAction::Finish { ok: false });
}
