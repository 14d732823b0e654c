use rust_crawler::channel::RecvOutcome;
use rust_crawler::channel::SendOutcome;
use rust_crawler::errors::SchedulingError;
use rust_crawler::Scheduler;

#[test]
fn first_split_succeeds_and_handles_work() {
    let mut sched: Scheduler<String> = Scheduler::new(4);
    let (sender, receiver) = sched.split().expect("first split must succeed");

    let outcome = sender.add_request(&mut sched, "https://example.test/a");
    assert!(matches!(outcome, SendOutcome::Sent));

    match receiver.get_request(&mut sched) {
        RecvOutcome::Item(req) => {
            assert_eq!(req.url(), "https://example.test/a");
            assert!(req.user_agent().is_none());
        }
        _ => panic!("expected the enqueued request"),
    }
}

#[test]
fn second_split_fails_with_scheduling_error() {
    let mut sched: Scheduler<String> = Scheduler::new(4);
    assert!(sched.split().is_ok());
    let second = sched.split();
    assert_eq!(second.unwrap_err(), SchedulingError::ReceiverAlreadyTaken);
}

#[test]
fn requests_dequeue_in_fifo_order() {
    let mut sched: Scheduler<String> = Scheduler::new(8);
    let (sender, receiver) = sched.split().unwrap();
    let urls = vec![
        "https://example.test/1".to_string(),
        "https://example.test/2".to_string(),
        "https://example.test/3".to_string(),
    ];
    let enqueued = sender.add_requests(&mut sched, urls).expect("open channel accepts the batch");
    assert_eq!(enqueued, 3);

    for expected in ["https://example.test/1", "https://example.test/2", "https://example.test/3"] {
        match receiver.get_request(&mut sched) {
            RecvOutcome::Item(req) => assert_eq!(req.url(), expected),
            _ => panic!("expected a pending request"),
        }
    }
    assert!(matches!(receiver.get_request(&mut sched), RecvOutcome::Empty));
}

#[test]
fn full_request_queue_pushes_back() {
    let mut sched: Scheduler<String> = Scheduler::new(1);
    let (sender, _receiver) = sched.split().unwrap();
    assert!(matches!(sender.add_request(&mut sched, "https://example.test/a"), SendOutcome::Sent));
    assert!(matches!(
        sender.add_request(&mut sched, "https://example.test/b"),
        SendOutcome::Full(_)
    ));
}

#[test]
fn closed_requests_drain_then_end_stream() {
    let mut sched: Scheduler<String> = Scheduler::new(4);
    let (sender, receiver) = sched.split().unwrap();
    assert!(matches!(sender.add_request(&mut sched, "https://example.test/a"), SendOutcome::Sent));
    sender.close_requests(&mut sched);

    assert!(matches!(
        sender.add_request(&mut sched, "https://example.test/late"),
        SendOutcome::Closed(_)
    ));
    assert!(matches!(receiver.get_request(&mut sched), RecvOutcome::Item(_)));
    assert!(matches!(receiver.get_request(&mut sched), RecvOutcome::EndOfStream));
}

#[test]
fn add_requests_on_closed_channel_reports_error() {
    let mut sched: Scheduler<String> = Scheduler::new(4);
    let (sender, _receiver) = sched.split().unwrap();
    sender.close_requests(&mut sched);
    let outcome = sender.add_requests(&mut sched, vec!["https://example.test/a".to_string()]);
    assert_eq!(outcome.unwrap_err(), SchedulingError::ChannelClosed);
}

#[test]
fn oversized_batch_enqueues_the_fitting_prefix() {
    let mut sched: Scheduler<String> = Scheduler::new(2);
    let (sender, receiver) = sched.split().unwrap();
    let urls = vec![
        "https://example.test/1".to_string(),
        "https://example.test/2".to_string(),
        "https://example.test/3".to_string(),
    ];
    // Only two fit: the batch reports the enqueued prefix.
    let enqueued = sender.add_requests(&mut sched, urls).unwrap();
    assert_eq!(enqueued, 2);

    match receiver.get_request(&mut sched) {
        RecvOutcome::Item(req) => assert_eq!(req.url(), "https://example.test/1"),
        _ => panic!("expected the first request"),
    }

    // A consumer made room: the caller submits the remainder.
    let rest = vec!["https://example.test/3".to_string()];
    let enqueued = sender.add_requests(&mut sched, rest).unwrap();
    assert_eq!(enqueued, 1);

    match receiver.get_request(&mut sched) {
        RecvOutcome::Item(req) => assert_eq!(req.url(), "https://example.test/2"),
        _ => panic!("expected the second request"),
    }
    match receiver.get_request(&mut sched) {
        RecvOutcome::Item(req) => assert_eq!(req.url(), "https://example.test/3"),
        _ => panic!("expected the third request"),
    }
}

#[test]
fn results_round_trip_through_their_channel() {
    let mut sched: Scheduler<String> = Scheduler::new(2);
    let (sender, receiver) = sched.split().unwrap();

    assert!(matches!(sender.add_parsed_data(&mut sched, "first".to_string()), SendOutcome::Sent));
    assert!(matches!(sender.add_parsed_data(&mut sched, "second".to_string()), SendOutcome::Sent));
    assert!(matches!(
        sender.add_parsed_data(&mut sched, "third".to_string()),
        SendOutcome::Full(_)
    ));

    match receiver.get_parsed_data(&mut sched) {
        RecvOutcome::Item(data) => assert_eq!(data, "first"),
        _ => panic!("expected the first result"),
    }
    sender.close_results(&mut sched);
    match receiver.get_parsed_data(&mut sched) {
        RecvOutcome::Item(data) => assert_eq!(data, "second"),
        _ => panic!("expected the second result"),
    }
    assert!(matches!(receiver.get_parsed_data(&mut sched), RecvOutcome::EndOfStream));
}
