use maelstrom_rs::store::StorePayload;
use maelstrom_rs::error::{Failure, RuntimeError};
use maelstrom_rs::init::{Init, InitPayload};
use maelstrom_rs::message::{Body, Message};
use maelstrom_rs::topology::Topology;
use maelstrom_rs::unique_ids::GeneratePayload;
use maelstrom_rs::wire::Frame;
use serde_json::Value;

fn message<P>(msg_id: Option<u64>, in_reply_to: Option<u64>, payload: P) -> Message<P> {
    Message {
        src: "n1".to_string(),
        dest: "c1".to_string(),
        body: Body { msg_id, in_reply_to, payload },
    }
}

fn value(text: &str) -> Value {
    serde_json::from_str::<Value>(text).unwrap()
}

#[test]
fn parses_a_broadcast_request() {
    let line = r#"{"src":"c1","dest":"n1","body":{"type":"broadcast","msg_id":2,"message":5}}"#;
    let parsed = Message::<StorePayload>::from_line(line).unwrap();
    assert_eq!(parsed.src, "c1");
    assert_eq!(parsed.dest, "n1");
    assert_eq!(parsed.body.msg_id, Some(2));
    assert_eq!(parsed.body.in_reply_to, None);
    assert_eq!(parsed.body.payload, StorePayload::Broadcast { message: 5 });
}

#[test]
fn parses_every_store_payload() {
    let cases: Vec<(&str, StorePayload)> = vec![
        (r#"{"type":"broadcast","message":0}"#, StorePayload::Broadcast { message: 0 }),
        (r#"{"type":"broadcast_ok"}"#, StorePayload::BroadcastOk),
        (r#"{"type":"read"}"#, StorePayload::Read),
        (
            r#"{"type":"read_ok","messages":[3,1,2]}"#,
            StorePayload::ReadOk { messages: vec![3, 1, 2] },
        ),
        (r#"{"type":"read_ok","messages":[]}"#, StorePayload::ReadOk { messages: vec![] }),
        (r#"{"type":"topology_ok"}"#, StorePayload::TopologyOk),
    ];
    for (body, expected) in cases {
        let line = format!(r#"{{"src":"a","dest":"b","body":{}}}"#, body);
        let parsed = Message::<StorePayload>::from_line(&line).unwrap();
        assert_eq!(parsed.body.payload, expected);
        assert_eq!(parsed.body.msg_id, None);
    }
}

#[test]
fn parses_a_topology() {
    let line = r#"{"src":"c1","dest":"n1","body":{"type":"topology","msg_id":4,"topology":{"n2":["n1"],"n1":["n2","n3"],"n3":[]}}}"#;
    let parsed = Message::<StorePayload>::from_line(line).unwrap();
    let expected = Topology {
        entries: vec![
            ("n1".to_string(), vec!["n2".to_string(), "n3".to_string()]),
            ("n2".to_string(), vec!["n1".to_string()]),
            ("n3".to_string(), vec![]),
        ],
    };
    assert_eq!(parsed.body.payload, StorePayload::Topology { topology: expected });
}

#[test]
fn rejects_a_topology_that_is_not_a_map_of_lists() {
    let lines = [
        r#"{"src":"c1","dest":"n1","body":{"type":"topology","topology":[]}}"#,
        r#"{"src":"c1","dest":"n1","body":{"type":"topology","topology":{"n1":"n2"}}}"#,
        r#"{"src":"c1","dest":"n1","body":{"type":"topology","topology":{"n1":["n2",3]}}}"#,
        r#"{"src":"c1","dest":"n1","body":{"type":"topology"}}"#,
    ];
    for line in lines {
        assert_eq!(
            Message::<StorePayload>::from_line(line),
            Err(RuntimeError::MalformedInput)
        );
    }
}

#[test]
fn writes_tags_in_snake_case() {
    let line = message(Some(1), Some(2), StorePayload::BroadcastOk).to_line().unwrap();
    assert_eq!(
        line,
        r#"{"body":{"in_reply_to":2,"msg_id":1,"type":"broadcast_ok"},"dest":"c1","src":"n1"}"#
    );
    let line = message(None, Some(3), StorePayload::ReadOk { messages: vec![5, 6] })
        .to_line()
        .unwrap();
    assert_eq!(
        line,
        r#"{"body":{"in_reply_to":3,"messages":[5,6],"type":"read_ok"},"dest":"c1","src":"n1"}"#
    );
    let line = message(None, None, StorePayload::TopologyOk).to_line().unwrap();
    assert_eq!(line, r#"{"body":{"type":"topology_ok"},"dest":"c1","src":"n1"}"#);
    let line = message(Some(8), None, GeneratePayload::GenerateOk { guid: "n1-2".to_string() })
        .to_line()
        .unwrap();
    assert_eq!(
        line,
        r#"{"body":{"id":"n1-2","msg_id":8,"type":"generate_ok"},"dest":"c1","src":"n1"}"#
    );
    let line = message(None, Some(1), InitPayload::InitOk).to_line().unwrap();
    assert_eq!(line, r#"{"body":{"in_reply_to":1,"type":"init_ok"},"dest":"c1","src":"n1"}"#);
}

#[test]
fn a_line_is_one_document_without_a_newline() {
    let line = message(
        Some(1),
        None,
        GeneratePayload::GenerateOk { guid: "line\nbreak".to_string() },
    )
    .to_line()
    .unwrap();
    assert!(!line.contains('\n'));
    let back = Message::<GeneratePayload>::from_line(&line).unwrap();
    assert_eq!(back.body.payload, GeneratePayload::GenerateOk { guid: "line\nbreak".to_string() });
}

fn round_trip_broadcast(m: Message<StorePayload>) {
    let line = m.to_line().unwrap();
    let back = Message::<StorePayload>::from_line(&line).unwrap();
    assert_eq!(back, m);
    let back = Message::<StorePayload>::from_value(&m.to_value()).unwrap();
    assert_eq!(back, m);
}

#[test]
fn store_messages_survive_a_round_trip() {
    round_trip_broadcast(message(Some(1), None, StorePayload::Broadcast { message: 5 }));
    round_trip_broadcast(message(
        Some(u64::MAX),
        Some(0),
        StorePayload::Broadcast { message: usize::MAX },
    ));
    round_trip_broadcast(message(None, Some(7), StorePayload::BroadcastOk));
    round_trip_broadcast(message(Some(3), None, StorePayload::Read));
    round_trip_broadcast(message(
        Some(4),
        Some(3),
        StorePayload::ReadOk { messages: vec![9, 0, 9, 12345] },
    ));
    round_trip_broadcast(message(None, None, StorePayload::ReadOk { messages: vec![] }));
    round_trip_broadcast(message(None, None, StorePayload::TopologyOk));
    round_trip_broadcast(message(
        Some(5),
        None,
        StorePayload::Topology {
            topology: Topology {
                entries: vec![
                    ("a".to_string(), vec!["b".to_string(), "c".to_string()]),
                    ("b".to_string(), vec![]),
                ],
            },
        },
    ));
}

#[test]
fn a_topology_entered_twice_keeps_the_later_entry() {
    let doubled = Topology {
        entries: vec![
            ("n1".to_string(), vec!["old".to_string()]),
            ("n1".to_string(), vec!["new".to_string()]),
        ],
    };
    let line = message(None, None, StorePayload::Topology { topology: doubled })
        .to_line()
        .unwrap();
    let back = Message::<StorePayload>::from_line(&line).unwrap();
    let expected = Topology { entries: vec![("n1".to_string(), vec!["new".to_string()])] };
    assert_eq!(back.body.payload, StorePayload::Topology { topology: expected });
}

#[test]
fn id_and_init_messages_survive_a_round_trip() {
    let m = message(Some(1), None, GeneratePayload::Generate);
    assert_eq!(Message::<GeneratePayload>::from_line(&m.to_line().unwrap()).unwrap(), m);
    let m = message(Some(2), Some(1), GeneratePayload::GenerateOk { guid: "n1-\"2\"".to_string() });
    assert_eq!(Message::<GeneratePayload>::from_line(&m.to_line().unwrap()).unwrap(), m);
    let m = message(
        Some(1),
        None,
        InitPayload::Init(Init {
            node_id: "n1".to_string(),
            node_ids: vec!["n1".to_string(), "n2".to_string()],
        }),
    );
    assert_eq!(Message::<InitPayload>::from_line(&m.to_line().unwrap()).unwrap(), m);
    let m = message(None, Some(1), InitPayload::InitOk);
    assert_eq!(Message::<InitPayload>::from_line(&m.to_line().unwrap()).unwrap(), m);
}

#[test]
fn rejects_what_is_not_json() {
    for line in ["", "hello", "{", r#"{"src":"c1""#, "{} {}", "[1,2"] {
        assert_eq!(
            Message::<StorePayload>::from_line(line),
            Err(RuntimeError::MalformedInput)
        );
    }
}

#[test]
fn rejects_an_envelope_without_its_fields() {
    let lines = [
        r#"[]"#,
        r#"5"#,
        r#"{}"#,
        r#"{"dest":"n1","body":{"type":"read"}}"#,
        r#"{"src":"c1","body":{"type":"read"}}"#,
        r#"{"src":"c1","dest":"n1"}"#,
        r#"{"src":"c1","dest":"n1","body":[]}"#,
        r#"{"src":"c1","dest":"n1","body":{}}"#,
        r#"{"src":"c1","dest":"n1","body":{"msg_id":1}}"#,
        r#"{"src":1,"dest":"n1","body":{"type":"read"}}"#,
        r#"{"src":"c1","dest":null,"body":{"type":"read"}}"#,
        r#"{"src":"c1","dest":"n1","body":{"type":7}}"#,
    ];
    for line in lines {
        assert_eq!(
            Message::<StorePayload>::from_line(line),
            Err(RuntimeError::MalformedInput),
            "{}",
            line
        );
    }
}

#[test]
fn rejects_ids_that_are_not_unsigned_integers() {
    let lines = [
        r#"{"src":"c1","dest":"n1","body":{"type":"read","msg_id":"1"}}"#,
        r#"{"src":"c1","dest":"n1","body":{"type":"read","msg_id":-1}}"#,
        r#"{"src":"c1","dest":"n1","body":{"type":"read","msg_id":1.5}}"#,
        r#"{"src":"c1","dest":"n1","body":{"type":"read","in_reply_to":[1]}}"#,
        r#"{"src":"c1","dest":"n1","body":{"type":"read","in_reply_to":true}}"#,
    ];
    for line in lines {
        assert_eq!(
            Message::<StorePayload>::from_line(line),
            Err(RuntimeError::MalformedInput),
            "{}",
            line
        );
    }
}

#[test]
fn takes_null_ids_as_unset() {
    let line = r#"{"src":"c1","dest":"n1","body":{"type":"read","msg_id":null,"in_reply_to":null}}"#;
    let parsed = Message::<StorePayload>::from_line(line).unwrap();
    assert_eq!(parsed.body.msg_id, None);
    assert_eq!(parsed.body.in_reply_to, None);
    assert_eq!(parsed.body.payload, StorePayload::Read);
}

#[test]
fn ignores_members_it_does_not_know() {
    let line = r#"{"id":3,"src":"c1","dest":"n1","body":{"type":"read","msg_id":1,"extra":{"a":1}}}"#;
    let parsed = Message::<StorePayload>::from_line(line).unwrap();
    assert_eq!(parsed.body.msg_id, Some(1));
    assert_eq!(parsed.body.payload, StorePayload::Read);
}

#[test]
fn rejects_unknown_tags_and_missing_payload_fields() {
    let lines = [
        r#"{"src":"c1","dest":"n1","body":{"type":"Broadcast","message":1}}"#,
        r#"{"src":"c1","dest":"n1","body":{"type":"broadcastOk"}}"#,
        r#"{"src":"c1","dest":"n1","body":{"type":"echo"}}"#,
        r#"{"src":"c1","dest":"n1","body":{"type":"broadcast"}}"#,
        r#"{"src":"c1","dest":"n1","body":{"type":"broadcast","message":"5"}}"#,
        r#"{"src":"c1","dest":"n1","body":{"type":"broadcast","message":-5}}"#,
        r#"{"src":"c1","dest":"n1","body":{"type":"read_ok"}}"#,
        r#"{"src":"c1","dest":"n1","body":{"type":"read_ok","messages":[1,"2"]}}"#,
        r#"{"src":"c1","dest":"n1","body":{"type":"read_ok","messages":5}}"#,
    ];
    for line in lines {
        assert_eq!(
            Message::<StorePayload>::from_line(line),
            Err(RuntimeError::MalformedInput),
            "{}",
            line
        );
    }
    assert_eq!(
        Message::<GeneratePayload>::from_line(
            r#"{"src":"c1","dest":"n1","body":{"type":"generate_ok"}}"#
        ),
        Err(RuntimeError::MalformedInput)
    );
    assert_eq!(
        Message::<GeneratePayload>::from_line(r#"{"src":"c1","dest":"n1","body":{"type":"read"}}"#),
        Err(RuntimeError::MalformedInput)
    );
}

#[test]
fn reads_a_frame_whatever_the_payload() {
    let v = value(r#"{"src":"c1","dest":"n1","body":{"type":"anything","msg_id":9,"in_reply_to":8,"x":1}}"#);
    let frame = Frame::read(&v).unwrap();
    assert_eq!(frame.src, "c1");
    assert_eq!(frame.dest, "n1");
    assert_eq!(frame.kind, "anything");
    assert_eq!(frame.msg_id, Some(9));
    assert_eq!(frame.in_reply_to, Some(8));
    assert_eq!(frame.body.len(), 4);
    assert!(frame.into_message::<StorePayload>().is_none());
    let v = value(r#"{"src":"c1","dest":"n1","body":{"type":"generate"}}"#);
    let m = Frame::read(&v).unwrap().into_message::<GeneratePayload>().unwrap();
    assert_eq!(m.body.payload, GeneratePayload::Generate);
    assert!(Frame::read(&value(r#"{"src":"c1","dest":"n1","body":{}}"#)).is_none());
}

#[test]
fn writes_the_value_that_stands_for_a_message() {
    let v = message(
        Some(1),
        Some(2),
        InitPayload::Init(Init { node_id: "n1".to_string(), node_ids: vec!["n1".to_string()] }),
    )
    .to_value();
    let expected = value(
        r#"{"src":"n1","dest":"c1","body":{"type":"init","msg_id":1,"in_reply_to":2,"node_id":"n1","node_ids":["n1"]}}"#,
    );
    assert_eq!(v, expected);
}

#[test]
fn describes_each_error() {
    assert_eq!(RuntimeError::MalformedInput.describe(), "malformed input");
    assert_eq!(RuntimeError::ProtocolViolation.describe(), "protocol violation");
    assert_eq!(RuntimeError::IoError.describe(), "output could not be written");
    assert_eq!(
        RuntimeError::HandlerError(Failure { reason: "out of luck".to_string() }).describe(),
        "handler failed: out of luck"
    );
}

#[test]
fn every_message_can_be_written() {
    let awkward = [
        "",
        "plain",
        "quote\" backslash\\ slash/",
        "control \u{0}\u{1}\u{1f}\t\r\n",
        "unicode \u{e9}\u{4e2d}\u{1f600}\u{2028}\u{ffff}",
    ];
    for text in awkward {
        let m = Message {
            src: text.to_string(),
            dest: text.to_string(),
            body: Body {
                msg_id: Some(u64::MAX),
                in_reply_to: Some(0),
                payload: GeneratePayload::GenerateOk { guid: text.to_string() },
            },
        };
        let line = m.to_line().unwrap();
        assert!(!line.contains('\n'));
        assert_eq!(Message::<GeneratePayload>::from_line(&line), Ok(m));
    }
    let topology = Topology {
        entries: vec![("".to_string(), vec!["".to_string()]), ("\n".to_string(), vec![])],
    };
    let m = message(None, None, StorePayload::Topology { topology });
    let line = m.to_line().unwrap();
    assert_eq!(Message::<StorePayload>::from_line(&line), Ok(m));
}
