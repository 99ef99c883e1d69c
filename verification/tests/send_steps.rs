use tsyncp::multi_channel::send::{FilterState, FilteredAction, FilteredSteps, State};

#[test]
fn a_send_goes_ready_start_flush_done() {
    let s = State::new();
    assert_eq!(s, State::Ready);
    assert_eq!(s.next(), State::StartSend);
    assert_eq!(s.next().next(), State::Flush);
    assert_eq!(s.next().next().next(), State::Done);
    assert_eq!(State::Done.next(), State::Done);
    assert_eq!(FilterState::new(), FilterState::GetIndices);
}

#[test]
fn a_filtered_send_picks_its_connections_before_waiting_and_flushing() {
    let mut steps = FilteredSteps::new();
    let mut actions = Vec::new();
    loop {
        let a = steps.action();
        actions.push(a);
        if a == FilteredAction::Finish {
            break;
        }
        steps.complete();
    }
    assert_eq!(
        actions,
        vec![
            FilteredAction::GetIndices,
            FilteredAction::PollReady,
            FilteredAction::StartSend,
            FilteredAction::GetIndices,
            FilteredAction::PollFlush,
            FilteredAction::Finish,
        ]
    );
}
