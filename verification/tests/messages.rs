use chatroom::message::{IncomingMessage, Message};
use time::OffsetDateTime;

#[test]
fn empty_incoming() {
    let incoming = IncomingMessage {
        sender: "".into(),
        body: "".into(),
    };

    assert_eq!(false, incoming.is_valid());
}

#[test]
fn empty_incoming_sender() {
    let incoming = IncomingMessage {
        sender: "".into(),
        body: "Is the server working?".into(),
    };

    assert_eq!(false, incoming.is_valid());
}

#[test]
fn empty_incoming_body() {
    let incoming = IncomingMessage {
        sender: "Tester".into(),
        body: "".into(),
    };

    assert_eq!(false, incoming.is_valid());
}

#[test]
fn nonempty_incoming() {
    let incoming = IncomingMessage {
        sender: "Tester".into(),
        body: "Is the server working?".into(),
    };

    assert!(incoming.is_valid());
}

#[test]
fn whitespace_counts_as_text() {
    let incoming = IncomingMessage {
        sender: " ".into(),
        body: "\n".into(),
    };

    assert!(incoming.is_valid());
}

#[test]
fn stamped_keeps_fields_and_takes_the_time() {
    let incoming = IncomingMessage {
        sender: "Tester".into(),
        body: "Is the server working?".into(),
    };

    let message = incoming.stamped(OffsetDateTime::UNIX_EPOCH);

    assert_eq!(
        Message {
            time: OffsetDateTime::UNIX_EPOCH,
            sender: "Tester".into(),
            body: "Is the server working?".into(),
        },
        message
    );
}

#[test]
fn conversion_reads_the_clock() {
    let before = OffsetDateTime::now_utc();
    let message: Message = IncomingMessage {
        sender: "Tester".into(),
        body: "Is the server working?".into(),
    }
    .into();
    let after = OffsetDateTime::now_utc();

    assert_eq!("Tester", message.sender);
    assert_eq!("Is the server working?", message.body);
    assert!(before <= message.time);
    assert!(message.time <= after);
    assert!(message.time > OffsetDateTime::UNIX_EPOCH);
}
