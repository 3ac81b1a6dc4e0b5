use gcp_rust::errors::LroError;
use gcp_rust::operation::{Operation, OperationStatus};
use gcp_rust::poller::{backoff_delay, init_state, poll_script, poll_step, PollConfig, PollEvent, PollVerdict};

fn op(status: OperationStatus) -> Operation {
    Operation {
        kind: "compute#operation".to_string(),
        id: "1".to_string(),
        name: "operation-1".to_string(),
        zone: None,
        region: None,
        client_operation_id: None,
        operation_type: "insert".to_string(),
        operation_group_id: None,
        target_link: "https://www.googleapis.com/compute/v1/projects/p1/global/networks/n1"
            .to_string(),
        target_id: "42".to_string(),
        status,
        user: "someone".to_string(),
        progress: 0,
        insert_time: "2023-01-01T00:00:00Z".to_string(),
        start_time: "2023-01-01T00:00:01Z".to_string(),
        status_message: None,
        end_time: None,
        self_link: "https://compute.googleapis.com/compute/v1/projects/p1/global/operations/1"
            .to_string(),
        description: None,
    }
}

fn cfg() -> PollConfig {
    PollConfig { deadline: 100, base_delay: 1, max_delay: 8, max_transport_retries: 2 }
}

#[test]
fn scripted_pending_running_done_takes_three_requests() {
    let events = vec![
        PollEvent::Response(op(OperationStatus::Pending)),
        PollEvent::Response(op(OperationStatus::Running)),
        PollEvent::Response(op(OperationStatus::Done)),
    ];
    let (outcome, requests) = poll_script(&cfg(), events);
    assert_eq!(requests, 3);
    assert_eq!(outcome, Some(Ok(op(OperationStatus::Done))));
}

#[test]
fn immediate_done_takes_one_request() {
    let events = vec![PollEvent::Response(op(OperationStatus::Done))];
    let (outcome, requests) = poll_script(&cfg(), events);
    assert_eq!(requests, 1);
    assert_eq!(outcome, Some(Ok(op(OperationStatus::Done))));
}

#[test]
fn polling_a_done_operation_again_returns_the_same_snapshot() {
    // A wait URL of an already-terminal operation answers with the same
    // snapshot; polling it again settles at once, with no state carried over.
    let first = poll_script(&cfg(), vec![PollEvent::Response(op(OperationStatus::Done))]);
    let second = poll_script(&cfg(), vec![PollEvent::Response(op(OperationStatus::Done))]);
    assert_eq!(first, second);
    assert_eq!(first, (Some(Ok(op(OperationStatus::Done))), 1));
}

#[test]
fn all_pending_times_out_within_the_deadline() {
    let tight = PollConfig { deadline: 3, base_delay: 1, max_delay: 1, max_transport_retries: 0 };
    let events: Vec<PollEvent> =
        (0..10).map(|_| PollEvent::Response(op(OperationStatus::Pending))).collect();
    let (outcome, requests) = poll_script(&tight, events);
    assert_eq!(outcome, Some(Err(LroError::Timeout)));
    // Each retry consumes one unit of the three-unit budget.
    assert_eq!(requests, 4);
}

#[test]
fn decode_failure_is_fatal() {
    let events = vec![
        PollEvent::Response(op(OperationStatus::Pending)),
        PollEvent::DecodeFailure,
    ];
    let (outcome, requests) = poll_script(&cfg(), events);
    assert_eq!(outcome, Some(Err(LroError::DecodeError)));
    assert_eq!(requests, 2);
}

#[test]
fn transport_failures_are_retried_within_budget() {
    let one_retry = PollConfig { deadline: 100, base_delay: 1, max_delay: 8, max_transport_retries: 1 };
    let events = vec![
        PollEvent::TransportFailure,
        PollEvent::Response(op(OperationStatus::Done)),
    ];
    let (outcome, requests) = poll_script(&one_retry, events);
    assert_eq!(outcome, Some(Ok(op(OperationStatus::Done))));
    assert_eq!(requests, 2);

    let events = vec![PollEvent::TransportFailure, PollEvent::TransportFailure];
    let (outcome, requests) = poll_script(&one_retry, events);
    assert_eq!(outcome, Some(Err(LroError::TransportError)));
    assert_eq!(requests, 2);
}

#[test]
fn script_can_run_out_before_settling() {
    let events = vec![PollEvent::Response(op(OperationStatus::Pending))];
    let (outcome, requests) = poll_script(&cfg(), events);
    assert_eq!(outcome, None);
    assert_eq!(requests, 1);
}

#[test]
fn backoff_doubles_up_to_the_cap() {
    let c = cfg();
    assert_eq!(backoff_delay(&c, 0, 0), 1);
    assert_eq!(backoff_delay(&c, 1, 0), 2);
    assert_eq!(backoff_delay(&c, 2, 0), 4);
    assert_eq!(backoff_delay(&c, 3, 0), 8);
    assert_eq!(backoff_delay(&c, 4, 0), 8);
    assert_eq!(backoff_delay(&c, 60, 0), 8);
}

#[test]
fn jitter_is_bounded_by_the_backoff() {
    let c = cfg();
    // Backoff 4 at two attempts; jitter is drawn modulo 5.
    assert_eq!(backoff_delay(&c, 2, 7), 4 + 7 % 5);
    assert_eq!(backoff_delay(&c, 2, 4), 8);
    assert_eq!(backoff_delay(&c, 2, 5), 4);
}

#[test]
fn step_proceeds_with_a_delay_on_pending() {
    let c = cfg();
    let (st, verdict) =
        poll_step(&c, init_state(), PollEvent::Response(op(OperationStatus::Pending)), 0);
    assert_eq!(verdict, PollVerdict::Proceed { delay: 1 });
    assert_eq!(st.elapsed, 1);
    assert_eq!(st.attempts, 1);
    assert_eq!(st.transport_failures, 0);
}
