use maelstrom_rs::ids::IdAllocator;
use maelstrom_rs::message::{Body, Message};

fn request(msg_id: Option<u64>) -> Message<u8> {
    Message {
        src: "c1".to_string(),
        dest: "n1".to_string(),
        body: Body { msg_id, in_reply_to: None, payload: 7u8 },
    }
}

#[test]
fn reply_swaps_ends_and_correlates() {
    let mut ids = IdAllocator::new();
    let reply = request(Some(42)).into_reply(Some(&mut ids));
    assert_eq!(reply.src, "n1");
    assert_eq!(reply.dest, "c1");
    assert_eq!(reply.body.in_reply_to, Some(42));
    assert_eq!(reply.body.msg_id, Some(1));
    assert_eq!(reply.body.payload, 7u8);
    assert_eq!(ids.peek(), 2);
}

#[test]
fn reply_without_allocator_has_no_id() {
    let reply = request(Some(9)).into_reply(None);
    assert_eq!(reply.body.msg_id, None);
    assert_eq!(reply.body.in_reply_to, Some(9));
    assert_eq!(reply.src, "n1");
    assert_eq!(reply.dest, "c1");
}

#[test]
fn reply_to_fire_and_forget_has_no_correlation() {
    let mut ids = IdAllocator::new();
    let reply = request(None).into_reply(Some(&mut ids));
    assert_eq!(reply.body.in_reply_to, None);
    assert_eq!(reply.body.msg_id, Some(1));
}

#[test]
fn replies_in_sequence_take_increasing_ids() {
    let mut ids = IdAllocator::new();
    let a = request(Some(10)).into_reply(Some(&mut ids));
    let b = request(Some(11)).into_reply(Some(&mut ids));
    let c = request(Some(12)).into_reply(Some(&mut ids));
    assert_eq!(a.body.msg_id, Some(1));
    assert_eq!(b.body.msg_id, Some(2));
    assert_eq!(c.body.msg_id, Some(3));
    assert!(b.body.msg_id > a.body.msg_id);
    assert!(c.body.msg_id > b.body.msg_id);
    assert_ne!(a.body.in_reply_to, b.body.in_reply_to);
    assert_ne!(b.body.in_reply_to, c.body.in_reply_to);
}

#[test]
fn originated_message_takes_a_fresh_id() {
    let mut ids = IdAllocator::new();
    let first = Message::originate("n1".to_string(), "n2".to_string(), 1u8, &mut ids);
    let second = Message::originate("n1".to_string(), "n3".to_string(), 2u8, &mut ids);
    assert_eq!(first.src, "n1");
    assert_eq!(first.dest, "n2");
    assert_eq!(first.body.msg_id, Some(1));
    assert_eq!(first.body.in_reply_to, None);
    assert_eq!(first.body.payload, 1u8);
    assert_eq!(second.body.msg_id, Some(2));
    assert_eq!(second.dest, "n3");
}

#[test]
fn main_items_are_reachable_from_the_root() {
    let mut ids = maelstrom_rs::IdAllocator::new();
    let request: maelstrom_rs::Message<u8> = maelstrom_rs::Message {
        src: "a".to_string(),
        dest: "b".to_string(),
        body: maelstrom_rs::Body { msg_id: Some(3), in_reply_to: None, payload: 0 },
    };
    let reply = request.into_reply(Some(&mut ids));
    assert_eq!(reply.body.in_reply_to, Some(3));
    assert_eq!(
        maelstrom_rs::RuntimeError::ProtocolViolation.describe(),
        "protocol violation"
    );
}
