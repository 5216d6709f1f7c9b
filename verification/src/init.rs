//! The init handshake: the one request that tells a node who it is and who
//! its peers are, and the acknowledgment that answers it.
use vstd::prelude::*;
use serde_json::Value;
use crate::error::RuntimeError;
use crate::fields::{
    lemma_texts_round_trip, list_at, read_list, read_text, read_texts, same_text, text_at,
    text_trees, texts_in, write_text, write_texts,
};
use crate::json::{tree_of, Fields, JsonTree};
use crate::message::{Body, Message, MessageModel};
use crate::wire::{frame_of, is_snake_case, Frame, Payload};

verus! {

/// What the init request tells a node: its own id and the ids of all nodes
/// of the cluster.
#[derive(Debug, Clone, PartialEq, Eq)]
pub struct Init {
    pub node_id: String,
    pub node_ids: Vec<String>,
}

/// The model of [`Init`].
pub struct InitModel {
    pub node_id: Seq<char>,
    pub node_ids: Seq<Seq<char>>,
}

impl View for Init {
    type V = InitModel;

    open spec fn view(&self) -> InitModel {
        InitModel { node_id: self.node_id@, node_ids: self.node_ids.deep_view() }
    }
}

/// The payloads of the handshake.
#[derive(Debug, Clone, PartialEq, Eq)]
pub enum InitPayload {
    Init(Init),
    InitOk,
}

/// The model of [`InitPayload`].
pub enum InitPayloadModel {
    Init(InitModel),
    InitOk,
}

impl View for InitPayload {
    type V = InitPayloadModel;

    open spec fn view(&self) -> InitPayloadModel {
        match self {
            InitPayload::Init(init) => InitPayloadModel::Init(init@),
            InitPayload::InitOk => InitPayloadModel::InitOk,
        }
    }
}

/// The tags and keys of the handshake differ from one another and from the
/// keys that the envelope keeps in the body.
pub proof fn lemma_init_keys()
    ensures
        "init"@ != "init_ok"@,
        "type"@ != "node_id"@,
        "type"@ != "node_ids"@,
        "node_id"@ != "node_ids"@,
        "node_id"@ != "msg_id"@,
        "node_id"@ != "in_reply_to"@,
        "node_ids"@ != "msg_id"@,
        "node_ids"@ != "in_reply_to"@,
        "type"@ != "msg_id"@,
        "type"@ != "in_reply_to"@,
{
    reveal_strlit("init");
    reveal_strlit("init_ok");
    reveal_strlit("type");
    reveal_strlit("node_id");
    reveal_strlit("node_ids");
    reveal_strlit("msg_id");
    reveal_strlit("in_reply_to");
    assert("init"@.len() == 4);
    assert("init_ok"@.len() == 7);
    assert("type"@.len() == 4);
    assert("node_id"@.len() == 7);
    assert("node_ids"@.len() == 8);
    assert("msg_id"@.len() == 6);
    assert("in_reply_to"@.len() == 11);
}

/// The tags of the handshake are written in snake case.
pub proof fn lemma_init_tags()
    ensures
        is_snake_case("init"@),
        is_snake_case("init_ok"@),
{
    reveal_strlit("init");
    reveal_strlit("init_ok");
    assert("init"@.len() == 4);
    assert("init_ok"@.len() == 7);
}

impl Payload for InitPayload {
    open spec fn encoded(value: InitPayloadModel) -> Fields {
        match value {
            InitPayloadModel::Init(init) => Fields::empty().insert(
                "type"@,
                JsonTree::Text("init"@),
            ).insert("node_id"@, JsonTree::Text(init.node_id)).insert(
                "node_ids"@,
                JsonTree::List(text_trees(init.node_ids)),
            ),
            InitPayloadModel::InitOk => Fields::empty().insert(
                "type"@,
                JsonTree::Text("init_ok"@),
            ),
        }
    }

    open spec fn decoded(body: Fields) -> Option<InitPayloadModel> {
        match text_at(body, "type"@) {
            Some(kind) => if kind == "init"@ {
                match (text_at(body, "node_id"@), list_at(body, "node_ids"@)) {
                    (Some(node_id), Some(items)) => match texts_in(items) {
                        Some(node_ids) => Some(
                            InitPayloadModel::Init(InitModel { node_id, node_ids }),
                        ),
                        None => None,
                    },
                    _ => None,
                }
            } else if kind == "init_ok"@ {
                Some(InitPayloadModel::InitOk)
            } else {
                None
            },
            None => None,
        }
    }

    proof fn lemma_encoded_keys(value: InitPayloadModel) {
        lemma_init_keys();
        lemma_init_tags();
    }

    proof fn lemma_decoded_encoded(value: InitPayloadModel, body: Fields) {
        lemma_init_keys();
        let base = Self::encoded(value);
        assert(base.contains_key("type"@));
        match value {
            InitPayloadModel::Init(init) => {
                assert(base.contains_key("node_id"@));
                assert(base.contains_key("node_ids"@));
                lemma_texts_round_trip(init.node_ids);
            },
            InitPayloadModel::InitOk => {},
        }
    }

    fn encode(&self, body: &mut serde_json::Map<String, Value>) {
        match self {
            InitPayload::Init(init) => {
                write_text(body, "type", "init");
                write_text(body, "node_id", init.node_id.as_str());
                write_texts(body, "node_ids", &init.node_ids);
            },
            InitPayload::InitOk => {
                write_text(body, "type", "init_ok");
            },
        }
    }

    fn decode(body: &serde_json::Map<String, Value>) -> (r: Option<InitPayload>) {
        let kind = match read_text(body, "type") {
            Some(kind) => kind,
            None => { return None; },
        };
        if same_text(&kind, "init") {
            let node_id = match read_text(body, "node_id") {
                Some(node_id) => node_id,
                None => { return None; },
            };
            let items = match read_list(body, "node_ids") {
                Some(items) => items,
                None => { return None; },
            };
            match read_texts(items) {
                Some(node_ids) => Some(InitPayload::Init(Init { node_id, node_ids })),
                None => None,
            }
        } else if same_text(&kind, "init_ok") {
            Some(InitPayload::InitOk)
        } else {
            None
        }
    }
}

/// What the first message of a node's life must be: a message whose `type`
/// is `init` and whose body names the node and its peers. A value that holds
/// no message at all, or an `init` without those fields, is malformed; a
/// message of any other type breaks the protocol.
pub open spec fn init_request_of(tree: JsonTree) -> Result<MessageModel<InitModel>, RuntimeError> {
    match frame_of(tree) {
        Some(frame) => if frame.kind == "init"@ {
            match InitPayload::decoded(frame.body) {
                Some(InitPayloadModel::Init(init)) => Ok(
                    MessageModel {
                        src: frame.src,
                        dest: frame.dest,
                        msg_id: frame.msg_id,
                        in_reply_to: frame.in_reply_to,
                        payload: init,
                    },
                ),
                _ => Err(RuntimeError::MalformedInput),
            }
        } else {
            Err(RuntimeError::ProtocolViolation)
        },
        None => Err(RuntimeError::MalformedInput),
    }
}

/// The acknowledgment of an init request: an `init_ok` that goes back to the
/// sender, names the request's id as `in_reply_to`, and has no id of its own.
pub open spec fn init_ok_for(request: MessageModel<InitModel>) -> MessageModel<InitPayloadModel> {
    request.reply(None, InitPayloadModel::InitOk)
}

/// The acknowledgment is an `init_ok` for the sender of the request, and its
/// `in_reply_to` is the request's `msg_id`.
pub proof fn lemma_init_ok_correlates(request: MessageModel<InitModel>)
    ensures
        init_ok_for(request).payload == InitPayloadModel::InitOk,
        init_ok_for(request).in_reply_to == request.msg_id,
        init_ok_for(request).dest == request.src,
        init_ok_for(request).src == request.dest,
{
}

/// Reads the init request out of the first value that a node receives.
pub fn read_init_request(value: &Value) -> (r: Result<Message<Init>, RuntimeError>)
    ensures
        match r {
            Ok(request) => init_request_of(tree_of(*value)) == Ok::<
                MessageModel<InitModel>,
                RuntimeError,
            >(request@),
            Err(e) => init_request_of(tree_of(*value)) == Err::<
                MessageModel<InitModel>,
                RuntimeError,
            >(e),
        },
{
    let frame = match Frame::read(value) {
        Some(frame) => frame,
        None => { return Err(RuntimeError::MalformedInput); },
    };
    if !same_text(&frame.kind, "init") {
        return Err(RuntimeError::ProtocolViolation);
    }
    match InitPayload::decode(frame.body) {
        Some(InitPayload::Init(init)) => Ok(
            Message {
                src: frame.src,
                dest: frame.dest,
                body: Body { msg_id: frame.msg_id, in_reply_to: frame.in_reply_to, payload: init },
            },
        ),
        _ => Err(RuntimeError::MalformedInput),
    }
}

/// Builds the acknowledgment of an init request.
pub fn acknowledge(request: &Message<Init>) -> (ack: Message<InitPayload>)
    ensures
        ack@ == init_ok_for(request@),
        ack.body.in_reply_to == request.body.msg_id,
        ack.body.msg_id is None,
        ack.body.payload == InitPayload::InitOk,
{
    Message {
        src: request.dest.clone(),
        dest: request.src.clone(),
        body: Body {
            msg_id: None,
            in_reply_to: request.body.msg_id,
            payload: InitPayload::InitOk,
        },
    }
}

} // verus!
