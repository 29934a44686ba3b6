use loopback_mp3::cancel::CancelSignal;
use loopback_mp3::driver::pipeline_step;
use loopback_mp3::driver::wait_verdict;
use loopback_mp3::driver::WaitAction;
use loopback_mp3::driver::WaitOutcome;
use loopback_mp3::driver::recording_should_continue;
use loopback_mp3::driver::PipelineState;

#[test]
fn unbounded_recording_runs_until_cancelled() {
    assert!(recording_should_continue(0, 0, false));
    assert!(recording_should_continue(0, u64::MAX, false));
    assert!(!recording_should_continue(0, 0, true));
}

#[test]
fn deadline_stops_new_ticks() {
    assert!(recording_should_continue(5, 4999, false));
    assert!(!recording_should_continue(5, 5000, false));
    assert!(!recording_should_continue(5, 60000, false));
    assert!(!recording_should_continue(5, 4999, true));
}

#[test]
fn a_session_walks_its_states_in_order() {
    let s = PipelineState::Starting;
    let s = pipeline_step(s, true);
    assert_eq!(s, PipelineState::Recording);
    let s = pipeline_step(s, true);
    assert_eq!(s, PipelineState::Recording);
    let s = pipeline_step(s, false);
    assert_eq!(s, PipelineState::Stopping);
    let s = pipeline_step(s, false);
    assert_eq!(s, PipelineState::Flushed);
    let s = pipeline_step(s, false);
    assert_eq!(s, PipelineState::Done);
    let s = pipeline_step(s, true);
    assert_eq!(s, PipelineState::Done);
}

#[test]
fn cancellation_reaches_done_within_four_steps() {
    for start in [
        PipelineState::Starting,
        PipelineState::Recording,
        PipelineState::Stopping,
        PipelineState::Flushed,
        PipelineState::Done,
    ] {
        let mut s = start;
        for _ in 0..4 {
            s = pipeline_step(s, false);
        }
        assert_eq!(s, PipelineState::Done);
    }
}

#[test]
fn cancellation_is_single_slot_and_terminal() {
    let (tx, mut cancel) = CancelSignal::new();
    assert!(!cancel.poll());

    // Two notifications while one is pending: the second is dropped
    // without blocking, and a single poll still observes the level.
    tx.try_send(()).unwrap();
    assert!(tx.try_send(()).is_err());
    assert!(cancel.poll());

    // Terminal: the observation outlives the drained slot.
    assert!(cancel.poll());
}

#[test]
fn a_wait_timeout_is_no_data_not_an_error() {
    assert_eq!(wait_verdict(WaitOutcome::Ready), WaitAction::Drain);
    assert_eq!(wait_verdict(WaitOutcome::TimedOut), WaitAction::Skip);
    assert_eq!(wait_verdict(WaitOutcome::Failed), WaitAction::Fatal);
}
