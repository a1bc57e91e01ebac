use displayrecorder::driver::{
    Driver, DriverEvent, DriverState, OutputOutcome, SubmitOutcome,
};

#[test]
fn start_is_idempotent_guarded() {
    let mut d = Driver::new();
    assert_eq!(d.state, DriverState::Idle);
    assert!(d.try_start());
    assert_eq!(d.state, DriverState::Running);
    assert!(!d.try_start());
    assert_eq!(d.state, DriverState::Running);
}

#[test]
fn stop_on_already_stopped_driver_is_a_noop() {
    let mut d = Driver::new();
    assert!(d.try_start());
    d.request_stop();
    assert!(d.stop_requested);
    // drain to completion
    d.handle(DriverEvent::StopObserved);
    assert_eq!(d.state, DriverState::Draining);
    d.handle(DriverEvent::OutputPulled(OutputOutcome::NeedsMoreInput));
    assert_eq!(d.state, DriverState::Stopped);
    // a second stop request succeeds and changes nothing else
    let before = d;
    d.request_stop();
    assert_eq!(d, before);
}

#[test]
fn driver_drains_on_end_of_input_and_emits_nothing_after() {
    let mut d = Driver::new();
    assert!(d.try_start());
    // feed three input samples
    for _ in 0..3 {
        d.handle(DriverEvent::StopObserved);
        d.handle(DriverEvent::InputPulled(true));
        d.handle(DriverEvent::InputSubmitted(SubmitOutcome::Accepted));
    }
    // two encoded samples come out while running
    d.handle(DriverEvent::OutputPulled(OutputOutcome::Produced));
    d.handle(DriverEvent::OutputPulled(OutputOutcome::Produced));
    assert!(d.emitted <= d.submitted);
    // the input callback runs dry: the driver issues a drain
    d.handle(DriverEvent::InputPulled(false));
    assert_eq!(d.state, DriverState::Draining);
    // one buffered sample flushes, then the transform reports empty
    d.handle(DriverEvent::OutputPulled(OutputOutcome::Produced));
    d.handle(DriverEvent::OutputPulled(OutputOutcome::NeedsMoreInput));
    assert_eq!(d.state, DriverState::Stopped);
    assert_eq!(d.emitted, 3);
    assert!(d.emitted <= 3, "no more encoded samples than inputs");
    // once drain completed, further events change nothing
    let settled = d;
    d.handle(DriverEvent::OutputPulled(OutputOutcome::Produced));
    d.handle(DriverEvent::InputPulled(true));
    assert_eq!(d, settled);
    assert_eq!(d.emitted, 3);
}

#[test]
fn a_whole_event_history_runs_through_the_machine() {
    let mut d = Driver::new();
    assert!(d.try_start());
    let history = vec![
        DriverEvent::StopObserved,
        DriverEvent::InputPulled(true),
        DriverEvent::InputSubmitted(SubmitOutcome::Accepted),
        DriverEvent::InputPulled(true),
        DriverEvent::InputSubmitted(SubmitOutcome::Accepted),
        DriverEvent::OutputPulled(OutputOutcome::Produced),
        DriverEvent::InputPulled(false),
        DriverEvent::OutputPulled(OutputOutcome::Produced),
        DriverEvent::OutputPulled(OutputOutcome::NeedsMoreInput),
    ];
    d.handle_all(&history);
    assert_eq!(d.state, DriverState::Stopped);
    assert_eq!(d.submitted, 2);
    // the second sample flushes during the drain
    assert_eq!(d.emitted, 2);
    assert!(d.emitted <= d.submitted);
    assert!(!d.failed);
}

#[test]
fn transform_failure_is_fatal() {
    let mut d = Driver::new();
    assert!(d.try_start());
    d.handle(DriverEvent::InputPulled(true));
    d.handle(DriverEvent::InputSubmitted(SubmitOutcome::TransformFailure));
    assert_eq!(d.state, DriverState::Stopped);
    assert!(d.failed);

    let mut d2 = Driver::new();
    assert!(d2.try_start());
    d2.handle(DriverEvent::OutputPulled(OutputOutcome::TransformFailure));
    assert_eq!(d2.state, DriverState::Stopped);
    assert!(d2.failed);
}

#[test]
fn not_accepting_pauses_input_until_next_output() {
    let mut d = Driver::new();
    assert!(d.try_start());
    assert!(d.wants_input());
    d.handle(DriverEvent::InputSubmitted(SubmitOutcome::NotAccepting));
    assert!(!d.wants_input());
    d.handle(DriverEvent::OutputPulled(OutputOutcome::Produced));
    assert!(d.wants_input());
}

#[test]
fn needs_more_input_while_running_is_not_an_error() {
    let mut d = Driver::new();
    assert!(d.try_start());
    d.handle(DriverEvent::OutputPulled(OutputOutcome::NeedsMoreInput));
    assert_eq!(d.state, DriverState::Running);
    assert!(!d.failed);
}
