//! The wire format of a message: one JSON object with the members `src`,
//! `dest` and `body`, where `body` holds the payload's own members (its
//! `type` tag among them) beside the optional `msg_id` and `in_reply_to`.
use vstd::prelude::*;
use serde_json::Value;
use crate::error::RuntimeError;
use crate::fields::{
    optional_unsigned_at, read_optional_unsigned, read_record, read_text, record_at, text_at,
    write_record, write_text, write_unsigned,
};
use crate::json::{
    as_object, entries_of, object_new, object_value, parse_text, parsed, render_text, rendered,
    tree_of, Fields, JsonNumber, JsonTree,
};
use crate::message::{Body, Message, MessageModel};

verus! {

/// Whether `body` holds every member of `base` unchanged and, beyond them,
/// at most the two correlation ids.
pub open spec fn frames(body: Fields, base: Fields) -> bool {
    &&& forall|k: Seq<char>| #[trigger]
        base.contains_key(k) ==> body.contains_key(k) && body[k] == base[k]
    &&& forall|k: Seq<char>| #[trigger]
        body.contains_key(k) ==> base.contains_key(k) || k == "msg_id"@ || k == "in_reply_to"@
}

/// Whether a character may stand in a tag: a lower-case letter, a digit or
/// an underscore.
pub open spec fn is_tag_char(c: char) -> bool {
    ||| 'a' as u32 <= c as u32 <= 'z' as u32
    ||| '0' as u32 <= c as u32 <= '9' as u32
    ||| c == '_'
}

/// Whether a text is written in snake case, as every `type` tag is.
pub open spec fn is_snake_case(tag: Seq<char>) -> bool {
    tag.len() > 0 && forall|i: int| 0 <= i < tag.len() ==> is_tag_char(#[trigger] tag[i])
}

/// A payload: a closed, tagged union that knows which members of a message
/// body stand for it.
///
/// The two specification functions are the codec's meaning, the two lemmas
/// are what every codec owes the envelope, and the two executable functions
/// are held to the specification functions.
pub trait Payload: View + Sized {
    /// The members that stand for `value`: its `type` tag in snake case and
    /// the fields of its variant.
    spec fn encoded(value: Self::V) -> Fields;

    /// The payload that the members of a body stand for, if they stand for
    /// one.
    spec fn decoded(body: Fields) -> Option<Self::V>;

    /// A payload always writes a `type` string in snake case, and leaves
    /// the correlation ids to the envelope.
    proof fn lemma_encoded_keys(value: Self::V)
        ensures
            text_at(Self::encoded(value), "type"@) matches Some(tag) && is_snake_case(tag),
            !Self::encoded(value).contains_key("msg_id"@),
            !Self::encoded(value).contains_key("in_reply_to"@),
    ;

    /// Decoding finds the payload again in any body that frames its members.
    proof fn lemma_decoded_encoded(value: Self::V, body: Fields)
        requires
            frames(body, Self::encoded(value)),
        ensures
            Self::decoded(body) == Some(value),
    ;

    /// Adds this payload's members to `body`.
    fn encode(&self, body: &mut serde_json::Map<String, Value>)
        ensures
            entries_of(*final(body)) == entries_of(*old(body)).union_prefer_right(
                Self::encoded(self@),
            ),
    ;

    /// Reads a payload out of the members of `body`.
    fn decode(body: &serde_json::Map<String, Value>) -> (r: Option<Self>)
        ensures
            match r {
                Some(payload) => Self::decoded(entries_of(*body)) == Some(payload@),
                None => Self::decoded(entries_of(*body)) is None,
            },
    ;
}

/// The `type` tag that a payload is written with.
pub open spec fn tag_of<P: Payload>(value: P::V) -> Seq<char> {
    text_at(P::encoded(value), "type"@)->0
}

/// The model of a [`Frame`].
pub struct FrameModel {
    pub src: Seq<char>,
    pub dest: Seq<char>,
    pub msg_id: Option<u64>,
    pub in_reply_to: Option<u64>,
    /// The body's `type` tag.
    pub kind: Seq<char>,
    /// All members of the body.
    pub body: Fields,
}

/// What every message has, whatever its payload: the envelope's fields, the
/// tag of the payload, and the body still to be decoded.
pub struct Frame<'a> {
    pub src: String,
    pub dest: String,
    pub msg_id: Option<u64>,
    pub in_reply_to: Option<u64>,
    pub kind: String,
    pub body: &'a serde_json::Map<String, Value>,
}

/// The frame that a JSON value holds: it must be an object with strings
/// under `src` and `dest` and an object under `body`, which in turn has a
/// string under `type` and, under `msg_id` and `in_reply_to`, an unsigned
/// integer, `null` or nothing.
pub open spec fn frame_of(tree: JsonTree) -> Option<FrameModel> {
    match tree {
        JsonTree::Record(top) => match (
            text_at(top, "src"@),
            text_at(top, "dest"@),
            record_at(top, "body"@),
        ) {
            (Some(src), Some(dest), Some(body)) => match (
                text_at(body, "type"@),
                optional_unsigned_at(body, "msg_id"@),
                optional_unsigned_at(body, "in_reply_to"@),
            ) {
                (Some(kind), Some(msg_id), Some(in_reply_to)) => Some(
                    FrameModel { src, dest, msg_id, in_reply_to, kind, body },
                ),
                _ => None,
            },
            _ => None,
        },
        _ => None,
    }
}

/// The message that a frame holds, where its body stands for a payload.
pub open spec fn message_in<P: Payload>(frame: FrameModel) -> Option<MessageModel<P::V>> {
    match P::decoded(frame.body) {
        Some(payload) => Some(
            MessageModel {
                src: frame.src,
                dest: frame.dest,
                msg_id: frame.msg_id,
                in_reply_to: frame.in_reply_to,
                payload,
            },
        ),
        None => None,
    }
}

/// The message that a JSON value holds, if it holds one.
pub open spec fn message_of<P: Payload>(tree: JsonTree) -> Option<MessageModel<P::V>> {
    match frame_of(tree) {
        Some(frame) => message_in::<P>(frame),
        None => None,
    }
}

/// The message that a line of text holds, if it is JSON and holds one.
pub open spec fn message_on_line<P: Payload>(line: Seq<char>) -> Option<MessageModel<P::V>> {
    match parsed(line) {
        Some(tree) => message_of::<P>(tree),
        None => None,
    }
}

/// `fields` with an unsigned integer under `key`, where one is given.
pub open spec fn with_optional(fields: Fields, key: Seq<char>, n: Option<u64>) -> Fields {
    match n {
        Some(n) => fields.insert(key, JsonTree::Number(JsonNumber::Unsigned(n))),
        None => fields,
    }
}

/// The members of the body of a message: those of its payload, and the
/// correlation ids that are set.
pub open spec fn body_fields<P: Payload>(message: MessageModel<P::V>) -> Fields {
    with_optional(
        with_optional(P::encoded(message.payload), "msg_id"@, message.msg_id),
        "in_reply_to"@,
        message.in_reply_to,
    )
}

/// The JSON value that stands for a message.
pub open spec fn message_tree<P: Payload>(message: MessageModel<P::V>) -> JsonTree {
    JsonTree::Record(
        Fields::empty().insert("src"@, JsonTree::Text(message.src)).insert(
            "dest"@,
            JsonTree::Text(message.dest),
        ).insert("body"@, JsonTree::Record(body_fields::<P>(message))),
    )
}

/// The keys of the envelope differ from one another, and so do the keys
/// that the envelope keeps in the body.
pub proof fn lemma_envelope_keys()
    ensures
        "src"@ != "dest"@,
        "src"@ != "body"@,
        "dest"@ != "body"@,
        "type"@ != "msg_id"@,
        "type"@ != "in_reply_to"@,
        "msg_id"@ != "in_reply_to"@,
{
    reveal_strlit("src");
    reveal_strlit("dest");
    reveal_strlit("body");
    reveal_strlit("type");
    reveal_strlit("msg_id");
    reveal_strlit("in_reply_to");
    assert("src"@.len() == 3);
    assert("dest"@.len() == 4 && "dest"@[0] == 'd');
    assert("body"@.len() == 4 && "body"@[0] == 'b');
    assert("type"@.len() == 4);
    assert("msg_id"@.len() == 6);
    assert("in_reply_to"@.len() == 11);
}

/// The body written for a message frames the members of its payload.
pub proof fn lemma_body_frames_payload<P: Payload>(message: MessageModel<P::V>)
    ensures
        frames(body_fields::<P>(message), P::encoded(message.payload)),
        text_at(body_fields::<P>(message), "type"@) == text_at(
            P::encoded(message.payload),
            "type"@,
        ),
        optional_unsigned_at(body_fields::<P>(message), "msg_id"@) == Some(message.msg_id),
        optional_unsigned_at(body_fields::<P>(message), "in_reply_to"@) == Some(
            message.in_reply_to,
        ),
{
    lemma_envelope_keys();
    P::lemma_encoded_keys(message.payload);
}

/// Writing a message and reading it back gives the message: for every
/// message, the value that stands for it holds that very message.
pub proof fn lemma_message_round_trip<P: Payload>(message: MessageModel<P::V>)
    ensures
        message_of::<P>(message_tree::<P>(message)) == Some(message),
{
    lemma_envelope_keys();
    lemma_body_frames_payload::<P>(message);
    P::lemma_encoded_keys(message.payload);
    P::lemma_decoded_encoded(message.payload, body_fields::<P>(message));
}

impl<'a> View for Frame<'a> {
    type V = FrameModel;

    open spec fn view(&self) -> FrameModel {
        FrameModel {
            src: self.src@,
            dest: self.dest@,
            msg_id: self.msg_id,
            in_reply_to: self.in_reply_to,
            kind: self.kind@,
            body: entries_of(*self.body),
        }
    }
}

impl<'a> Frame<'a> {
    /// Reads the frame of a message out of a JSON value.
    pub fn read(value: &'a Value) -> (r: Option<Frame<'a>>)
        ensures
            match r {
                Some(frame) => frame_of(tree_of(*value)) == Some(frame@),
                None => frame_of(tree_of(*value)) is None,
            },
    {
        let top = match as_object(value) {
            Some(top) => top,
            None => { return None; },
        };
        let src = match read_text(top, "src") {
            Some(src) => src,
            None => { return None; },
        };
        let dest = match read_text(top, "dest") {
            Some(dest) => dest,
            None => { return None; },
        };
        let body = match read_record(top, "body") {
            Some(body) => body,
            None => { return None; },
        };
        let kind = match read_text(body, "type") {
            Some(kind) => kind,
            None => { return None; },
        };
        let msg_id = match read_optional_unsigned(body, "msg_id") {
            Some(msg_id) => msg_id,
            None => { return None; },
        };
        let in_reply_to = match read_optional_unsigned(body, "in_reply_to") {
            Some(in_reply_to) => in_reply_to,
            None => { return None; },
        };
        Some(Frame { src, dest, msg_id, in_reply_to, kind, body })
    }

    /// Decodes the body, and with it the whole message.
    pub fn into_message<P: Payload>(self) -> (r: Option<Message<P>>)
        ensures
            match r {
                Some(message) => message_in::<P>(self@) == Some(message@),
                None => message_in::<P>(self@) is None,
            },
    {
        match P::decode(self.body) {
            Some(payload) => Some(
                Message {
                    src: self.src,
                    dest: self.dest,
                    body: Body { msg_id: self.msg_id, in_reply_to: self.in_reply_to, payload },
                },
            ),
            None => None,
        }
    }
}

impl<P: Payload> Message<P> {
    /// Reads a message out of a JSON value. It fails with `MalformedInput`
    /// exactly where the value holds no message of this payload type.
    pub fn from_value(value: &Value) -> (r: Result<Message<P>, RuntimeError>)
        ensures
            match r {
                Ok(message) => message_of::<P>(tree_of(*value)) == Some(message@),
                Err(e) => e == RuntimeError::MalformedInput && message_of::<P>(tree_of(*value))
                    is None,
            },
    {
        match Frame::read(value) {
            Some(frame) => match frame.into_message::<P>() {
                Some(message) => Ok(message),
                None => Err(RuntimeError::MalformedInput),
            },
            None => Err(RuntimeError::MalformedInput),
        }
    }

    /// Reads a message from one line of input. It fails with
    /// `MalformedInput` exactly where the line is not JSON or holds no
    /// message of this payload type.
    pub fn from_line(line: &str) -> (r: Result<Message<P>, RuntimeError>)
        ensures
            match r {
                Ok(message) => message_on_line::<P>(line@) == Some(message@),
                Err(e) => e == RuntimeError::MalformedInput && message_on_line::<P>(line@)
                    is None,
            },
    {
        match parse_text(line) {
            Ok(value) => Self::from_value(&value),
            Err(_) => Err(RuntimeError::MalformedInput),
        }
    }

    /// The JSON value that stands for this message.
    pub fn to_value(&self) -> (r: Value)
        ensures
            tree_of(r) == message_tree::<P>(self@),
    {
        let mut body = object_new();
        self.body.payload.encode(&mut body);
        assert(entries_of(body) =~= P::encoded(self@.payload));
        match self.body.msg_id {
            Some(n) => { write_unsigned(&mut body, "msg_id", n); },
            None => {},
        }
        match self.body.in_reply_to {
            Some(n) => { write_unsigned(&mut body, "in_reply_to", n); },
            None => {},
        }
        let mut top = object_new();
        write_text(&mut top, "src", self.src.as_str());
        write_text(&mut top, "dest", self.dest.as_str());
        write_record(&mut top, "body", body);
        object_value(top)
    }

    /// This message as one line of output, without the newline that ends
    /// it. Every message can be written: the result is always `Ok`.
    pub fn to_line(&self) -> (r: Result<String, RuntimeError>)
        ensures
            r matches Ok(line) && line@ == rendered(message_tree::<P>(self@)),
    {
        let value = self.to_value();
        match render_text(&value) {
            Ok(line) => Ok(line),
            Err(_) => Err(RuntimeError::IoError),
        }
    }
}

} // verus!
