use dbusgraft::bridge::{Bridge, Direction};
use dbusgraft::message::{Message, MessageKind};
use dbusgraft::side::{Action, Event, Failure, Outcome, Side, Stage};

fn text(value: &str) -> Option<String> {
    Some(value.to_string())
}

fn call(serial: u32, sender: &str) -> Message {
    Message {
        kind: MessageKind::MethodCall,
        serial,
        reply_serial: None,
        sender: text(sender),
        destination: text("com.example.Svc"),
        interface: text("com.example.Svc"),
        member: text("Ping"),
        signature: "s".to_string(),
        body: vec![5, 0, 0, 0, b'h', b'e', b'l', b'l', b'o', 0],
    }
}

fn reply(serial: u32, reply_serial: u32) -> Message {
    Message {
        kind: MessageKind::MethodReturn,
        serial,
        reply_serial: Some(reply_serial),
        sender: text(":1.20"),
        destination: text(":1.5"),
        interface: None,
        member: None,
        signature: "u".to_string(),
        body: vec![1, 0, 0, 0],
    }
}

fn signal() -> Message {
    Message {
        kind: MessageKind::Signal,
        serial: 12,
        reply_serial: None,
        sender: text(":1.20"),
        destination: None,
        interface: text("com.example.Svc"),
        member: text("Changed"),
        signature: "".to_string(),
        body: vec![],
    }
}

fn sent(action: Action) -> Message {
    match action {
        Action::Send(message) => message,
        other => panic!("nothing was sent: {other:?}"),
    }
}

#[test]
fn new_side_runs() {
    let side = Side::new(Direction::UpToDown, text(":1.6"));
    assert!(side.is_running());
    assert_eq!(side.direction(), Direction::UpToDown);
    assert_eq!(side.finish(), None);
}

#[test]
fn round_trip_through_both_loops() {
    let mut bridge = Bridge::new("com.example.Svc".to_string());
    let mut up = Side::new(Direction::DownToUp, text(":1.5"));
    let mut down = Side::new(Direction::UpToDown, text(":1.6"));

    let action = up.step(&mut bridge, Event::Received(call(7, ":1.10")));
    assert_eq!(action, Action::Resolve(call(7, ":1.10")));

    let action = up.step(
        &mut bridge,
        Event::Resolved { message: call(7, ":1.10"), owner: ":1.20".to_string() },
    );
    let outgoing = sent(action);
    assert_ne!(outgoing.serial, 0);
    let mut expected = call(outgoing.serial, ":1.5");
    expected.destination = text(":1.20");
    assert_eq!(outgoing, expected);
    assert_eq!(up.step(&mut bridge, Event::Sent), Action::Receive);

    let action = down.step(&mut bridge, Event::Received(reply(33, outgoing.serial)));
    let answer = sent(action);
    let mut expected = reply(answer.serial, 7);
    expected.destination = text(":1.10");
    expected.sender = text(":1.6");
    assert_eq!(answer, expected);
    assert_ne!(answer.serial, outgoing.serial);
    assert_eq!(down.step(&mut bridge, Event::Sent), Action::Receive);

    let action = down.step(&mut bridge, Event::Received(reply(34, outgoing.serial)));
    assert_eq!(action, Action::Warn { reply_serial: outgoing.serial });
    assert!(up.is_running());
    assert!(down.is_running());
}

#[test]
fn unmatched_reply_warns_and_the_loop_goes_on() {
    let mut bridge = Bridge::new("com.example.Svc".to_string());
    let mut down = Side::new(Direction::UpToDown, text(":1.6"));

    let action = down.step(&mut bridge, Event::Received(reply(33, 4242)));
    assert_eq!(action, Action::Warn { reply_serial: 4242 });
    assert!(down.is_running());

    let next = sent(down.step(&mut bridge, Event::Received(signal())));
    let mut expected = signal();
    expected.serial = next.serial;
    expected.sender = text(":1.6");
    assert_eq!(next, expected);
    assert!(down.is_running());
}

#[test]
fn name_acquired_is_never_sent() {
    let mut bridge = Bridge::new("com.example.Svc".to_string());
    let mut down = Side::new(Direction::UpToDown, text(":1.6"));
    let mut up = Side::new(Direction::DownToUp, text(":1.5"));

    let mut acquired = signal();
    acquired.member = text("NameAcquired");
    assert_eq!(down.step(&mut bridge, Event::Received(acquired.clone())), Action::Receive);
    assert_eq!(up.step(&mut bridge, Event::Received(acquired.clone())), Action::Receive);

    acquired.destination = text(":1.6");
    acquired.reply_serial = Some(3);
    acquired.kind = MessageKind::MethodReturn;
    assert_eq!(down.step(&mut bridge, Event::Received(acquired)), Action::Receive);
    assert!(down.is_running());
}

#[test]
fn owner_is_resolved_once_while_fresh() {
    let mut bridge = Bridge::new("com.example.Svc".to_string());
    let mut up = Side::new(Direction::DownToUp, None);

    assert_eq!(
        up.step(&mut bridge, Event::Received(call(7, ":1.10"))),
        Action::Resolve(call(7, ":1.10"))
    );
    sent(up.step(
        &mut bridge,
        Event::Resolved { message: call(7, ":1.10"), owner: ":1.20".to_string() },
    ));
    let second = sent(up.step(&mut bridge, Event::Received(call(8, ":1.11"))));
    let mut expected = call(second.serial, ":1.11");
    expected.destination = text(":1.20");
    assert_eq!(second, expected);
}

#[test]
fn side_without_own_address_keeps_the_sender() {
    let mut bridge = Bridge::new("com.example.Svc".to_string());
    let mut down = Side::new(Direction::UpToDown, None);
    let outgoing = sent(down.step(&mut bridge, Event::Received(signal())));
    assert_eq!(outgoing.sender, text(":1.20"));
    assert_eq!(outgoing.destination, None);
    assert_eq!(outgoing.body, signal().body);
    assert_eq!(outgoing.signature, signal().signature);
}

#[test]
fn end_of_stream_finishes_the_loop() {
    let mut bridge = Bridge::new("com.example.Svc".to_string());
    let mut side = Side::new(Direction::UpToDown, None);
    assert_eq!(side.step(&mut bridge, Event::EndOfStream), Action::Stop);
    assert!(!side.is_running());
    assert_eq!(side.finish(), Some(Outcome::Finished));
}

#[test]
fn shutdown_cancels_the_loop() {
    let mut bridge = Bridge::new("com.example.Svc".to_string());
    let mut side = Side::new(Direction::DownToUp, None);
    assert_eq!(side.step(&mut bridge, Event::Cancelled), Action::Stop);
    assert!(!side.is_running());
    assert_eq!(side.finish(), Some(Outcome::Cancelled));
}

#[test]
fn receive_failure_ends_the_loop() {
    let mut bridge = Bridge::new("com.example.Svc".to_string());
    let mut side = Side::new(Direction::UpToDown, None);
    assert_eq!(side.step(&mut bridge, Event::ReceiveFailed("broken pipe".to_string())), Action::Stop);
    assert_eq!(
        side.finish(),
        Some(Outcome::Failed(Failure { stage: Stage::Receive, detail: "broken pipe".to_string() }))
    );
}

#[test]
fn resolve_failure_ends_the_loop_and_caches_nothing() {
    let mut bridge = Bridge::new("com.example.Svc".to_string());
    let mut side = Side::new(Direction::DownToUp, None);
    let mut other = Side::new(Direction::DownToUp, None);
    assert_eq!(
        side.step(&mut bridge, Event::Received(call(7, ":1.10"))),
        Action::Resolve(call(7, ":1.10"))
    );
    assert_eq!(side.step(&mut bridge, Event::ResolveFailed("no owner".to_string())), Action::Stop);
    assert_eq!(
        side.finish(),
        Some(Outcome::Failed(Failure { stage: Stage::Resolve, detail: "no owner".to_string() }))
    );
    assert_eq!(
        other.step(&mut bridge, Event::Received(call(8, ":1.10"))),
        Action::Resolve(call(8, ":1.10"))
    );
}

#[test]
fn send_failure_ends_the_loop() {
    let mut bridge = Bridge::new("com.example.Svc".to_string());
    let mut side = Side::new(Direction::UpToDown, None);
    sent(side.step(&mut bridge, Event::Received(signal())));
    assert_eq!(side.step(&mut bridge, Event::SendFailed("closed".to_string())), Action::Stop);
    assert_eq!(
        side.finish(),
        Some(Outcome::Failed(Failure { stage: Stage::Send, detail: "closed".to_string() }))
    );
}

#[test]
fn stopped_loop_stays_stopped() {
    let mut bridge = Bridge::new("com.example.Svc".to_string());
    let mut side = Side::new(Direction::DownToUp, text(":1.5"));
    let mut other = Side::new(Direction::DownToUp, text(":1.5"));
    assert_eq!(side.step(&mut bridge, Event::SendFailed("closed".to_string())), Action::Stop);

    assert_eq!(side.step(&mut bridge, Event::Received(call(7, ":1.10"))), Action::Stop);
    assert_eq!(side.step(&mut bridge, Event::Sent), Action::Stop);
    assert_eq!(side.step(&mut bridge, Event::EndOfStream), Action::Stop);
    assert_eq!(side.step(&mut bridge, Event::Cancelled), Action::Stop);
    assert_eq!(
        side.step(
            &mut bridge,
            Event::Resolved { message: call(7, ":1.10"), owner: ":1.20".to_string() },
        ),
        Action::Stop
    );
    assert!(!side.is_running());
    assert_eq!(
        side.finish(),
        Some(Outcome::Failed(Failure { stage: Stage::Send, detail: "closed".to_string() }))
    );
    assert_eq!(
        other.step(&mut bridge, Event::Received(call(7, ":1.10"))),
        Action::Resolve(call(7, ":1.10"))
    );
}

#[test]
fn stages_say_what_went_on() {
    assert_eq!(Stage::Receive.describe(), "Error receiving message from source");
    assert_eq!(Stage::Resolve.describe(), "Error looking up destination name");
    assert_eq!(Stage::Send.describe(), "Error forwarding upstream message to destination");
}
