use dbusgraft::bridge::{Bridge, Direction};
use dbusgraft::gateway::{aggregate, clone_failure, collect_failures, exit_status, mirrored_sides};
use dbusgraft::message::{Message, MessageKind};
use dbusgraft::side::{Action, Event, Failure, Outcome, Stage};

fn failure(stage: Stage, detail: &str) -> Failure {
    Failure { stage, detail: detail.to_string() }
}

fn signal() -> Message {
    Message {
        kind: MessageKind::Signal,
        serial: 12,
        reply_serial: None,
        sender: Some(":1.20".to_string()),
        destination: None,
        interface: Some("com.example.Svc".to_string()),
        member: Some("Changed".to_string()),
        signature: "".to_string(),
        body: vec![],
    }
}

#[test]
fn mirrored_sides_send_under_the_address_of_their_destination() {
    let (mut down, mut up) =
        mirrored_sides(Some(":1.5".to_string()), Some(":1.6".to_string()));
    assert_eq!(down.direction(), Direction::UpToDown);
    assert_eq!(up.direction(), Direction::DownToUp);
    assert!(down.is_running());
    assert!(up.is_running());

    let mut bridge = Bridge::new("com.example.Svc".to_string());
    match down.step(&mut bridge, Event::Received(signal())) {
        Action::Send(message) => assert_eq!(message.sender, Some(":1.6".to_string())),
        other => panic!("nothing was sent: {other:?}"),
    }
    match up.step(&mut bridge, Event::Received(signal())) {
        Action::Send(message) => assert_eq!(message.sender, Some(":1.5".to_string())),
        other => panic!("nothing was sent: {other:?}"),
    }
}

#[test]
fn clean_outcomes_aggregate_to_success() {
    assert_eq!(aggregate(&vec![]), Ok(()));
    assert_eq!(
        aggregate(&vec![Outcome::Finished, Outcome::Cancelled, Outcome::Cancelled, Outcome::Finished]),
        Ok(())
    );
    assert_eq!(exit_status(&Ok(())), 0);
}

#[test]
fn every_failure_is_reported_in_order() {
    let outcomes = vec![
        Outcome::Cancelled,
        Outcome::Failed(failure(Stage::Send, "closed")),
        Outcome::Finished,
        Outcome::Failed(failure(Stage::Resolve, "no owner")),
        Outcome::Failed(failure(Stage::Send, "closed")),
        Outcome::Cancelled,
    ];
    let expected = vec![
        failure(Stage::Send, "closed"),
        failure(Stage::Resolve, "no owner"),
        failure(Stage::Send, "closed"),
    ];
    assert_eq!(collect_failures(&outcomes), expected);
    let result = aggregate(&outcomes);
    assert_eq!(result, Err(expected));
    assert_eq!(exit_status(&result), 1);
}

#[test]
fn one_failure_among_cancelled_loops_fails_the_run() {
    let outcomes = vec![
        Outcome::Cancelled,
        Outcome::Cancelled,
        Outcome::Failed(failure(Stage::Receive, "broken pipe")),
        Outcome::Cancelled,
    ];
    let result = aggregate(&outcomes);
    assert_eq!(result, Err(vec![failure(Stage::Receive, "broken pipe")]));
    assert_ne!(exit_status(&result), 0);
}

#[test]
fn collect_failures_of_nothing_is_empty() {
    assert_eq!(collect_failures(&vec![]), vec![]);
    assert_eq!(collect_failures(&vec![Outcome::Finished]), vec![]);
}

#[test]
fn exit_status_of_an_empty_failure_list_is_zero() {
    assert_eq!(exit_status(&Err(vec![])), 0);
}

#[test]
fn clone_failure_copies() {
    let first = failure(Stage::Resolve, "no owner");
    assert_eq!(clone_failure(&first), first);
}
