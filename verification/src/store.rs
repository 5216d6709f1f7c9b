//! A single-node broadcast store: it keeps every value broadcast to it and
//! hands all of them out on a read. It never passes a broadcast on to other
//! nodes.
use vstd::prelude::*;
use serde_json::Value;
use crate::error::Failure;
use crate::fields::{
    lemma_sizes_round_trip, list_at, read_list, read_record, read_size, read_sizes, read_text,
    record_at, same_text, size_at, size_tree, size_trees, sizes_in, text_at, write_record,
    write_size, write_sizes, write_text,
};
use crate::ids::IdAllocator;
use crate::init::Init;
use crate::json::{Fields, JsonTree};
use crate::message::{models, Event, Message};
use crate::node::Node;
use crate::topology::{lemma_links_round_trip, link_fields, links_in, Links, Topology};
use crate::wire::{is_snake_case, tag_of, Payload};

verus! {

/// What the store node is asked and what it answers.
#[derive(Debug, Clone, PartialEq, Eq)]
pub enum StorePayload {
    Broadcast { message: usize },
    BroadcastOk,
    Read,
    ReadOk { messages: Vec<usize> },
    Topology { topology: Topology },
    TopologyOk,
}

/// The model of [`StorePayload`].
pub enum StorePayloadModel {
    Broadcast { message: usize },
    BroadcastOk,
    Read,
    ReadOk { messages: Seq<usize> },
    Topology { topology: Links },
    TopologyOk,
}

impl View for StorePayload {
    type V = StorePayloadModel;

    open spec fn view(&self) -> StorePayloadModel {
        match self {
            StorePayload::Broadcast { message } => StorePayloadModel::Broadcast {
                message: *message,
            },
            StorePayload::BroadcastOk => StorePayloadModel::BroadcastOk,
            StorePayload::Read => StorePayloadModel::Read,
            StorePayload::ReadOk { messages } => StorePayloadModel::ReadOk {
                messages: messages@,
            },
            StorePayload::Topology { topology } => StorePayloadModel::Topology {
                topology: topology@,
            },
            StorePayload::TopologyOk => StorePayloadModel::TopologyOk,
        }
    }
}

/// The tags of the store node differ from one another, and its keys differ
/// from `type` and from the keys that the envelope keeps in the body.
pub proof fn lemma_store_keys()
    ensures
        "broadcast"@ != "broadcast_ok"@,
        "broadcast"@ != "read"@,
        "broadcast"@ != "read_ok"@,
        "broadcast"@ != "topology"@,
        "broadcast"@ != "topology_ok"@,
        "broadcast_ok"@ != "read"@,
        "broadcast_ok"@ != "read_ok"@,
        "broadcast_ok"@ != "topology"@,
        "broadcast_ok"@ != "topology_ok"@,
        "read"@ != "read_ok"@,
        "read"@ != "topology"@,
        "read"@ != "topology_ok"@,
        "read_ok"@ != "topology"@,
        "read_ok"@ != "topology_ok"@,
        "topology"@ != "topology_ok"@,
        "type"@ != "message"@,
        "type"@ != "messages"@,
        "type"@ != "topology"@,
        "type"@ != "msg_id"@,
        "type"@ != "in_reply_to"@,
        "message"@ != "msg_id"@,
        "message"@ != "in_reply_to"@,
        "messages"@ != "msg_id"@,
        "messages"@ != "in_reply_to"@,
        "topology"@ != "msg_id"@,
        "topology"@ != "in_reply_to"@,
{
    reveal_strlit("broadcast");
    reveal_strlit("broadcast_ok");
    reveal_strlit("read");
    reveal_strlit("read_ok");
    reveal_strlit("topology");
    reveal_strlit("topology_ok");
    reveal_strlit("type");
    reveal_strlit("message");
    reveal_strlit("messages");
    reveal_strlit("msg_id");
    reveal_strlit("in_reply_to");
    assert("broadcast"@.len() == 9);
    assert("broadcast_ok"@.len() == 12);
    assert("read"@.len() == 4 && "read"@[0] == 'r');
    assert("read_ok"@.len() == 7);
    assert("topology"@.len() == 8);
    assert("topology_ok"@.len() == 11);
    assert("type"@.len() == 4 && "type"@[0] == 't');
    assert("message"@.len() == 7);
    assert("messages"@.len() == 8);
    assert("msg_id"@.len() == 6);
    assert("in_reply_to"@.len() == 11);
}

/// The tags of the store node are written in snake case.
pub proof fn lemma_store_tags()
    ensures
        is_snake_case("broadcast"@),
        is_snake_case("broadcast_ok"@),
        is_snake_case("read"@),
        is_snake_case("read_ok"@),
        is_snake_case("topology"@),
        is_snake_case("topology_ok"@),
{
    reveal_strlit("broadcast");
    reveal_strlit("broadcast_ok");
    reveal_strlit("read");
    reveal_strlit("read_ok");
    reveal_strlit("topology");
    reveal_strlit("topology_ok");
    assert("broadcast"@.len() == 9);
    assert("broadcast_ok"@.len() == 12);
    assert("read"@.len() == 4);
    assert("read_ok"@.len() == 7);
    assert("topology"@.len() == 8);
    assert("topology_ok"@.len() == 11);
}

impl Payload for StorePayload {
    open spec fn encoded(value: StorePayloadModel) -> Fields {
        match value {
            StorePayloadModel::Broadcast { message } => Fields::empty().insert(
                "type"@,
                JsonTree::Text("broadcast"@),
            ).insert("message"@, size_tree(message)),
            StorePayloadModel::BroadcastOk => Fields::empty().insert(
                "type"@,
                JsonTree::Text("broadcast_ok"@),
            ),
            StorePayloadModel::Read => Fields::empty().insert(
                "type"@,
                JsonTree::Text("read"@),
            ),
            StorePayloadModel::ReadOk { messages } => Fields::empty().insert(
                "type"@,
                JsonTree::Text("read_ok"@),
            ).insert("messages"@, JsonTree::List(size_trees(messages))),
            StorePayloadModel::Topology { topology } => Fields::empty().insert(
                "type"@,
                JsonTree::Text("topology"@),
            ).insert("topology"@, JsonTree::Record(link_fields(topology))),
            StorePayloadModel::TopologyOk => Fields::empty().insert(
                "type"@,
                JsonTree::Text("topology_ok"@),
            ),
        }
    }

    open spec fn decoded(body: Fields) -> Option<StorePayloadModel> {
        match text_at(body, "type"@) {
            Some(kind) => if kind == "broadcast"@ {
                match size_at(body, "message"@) {
                    Some(message) => Some(StorePayloadModel::Broadcast { message }),
                    None => None,
                }
            } else if kind == "broadcast_ok"@ {
                Some(StorePayloadModel::BroadcastOk)
            } else if kind == "read"@ {
                Some(StorePayloadModel::Read)
            } else if kind == "read_ok"@ {
                match list_at(body, "messages"@) {
                    Some(items) => match sizes_in(items) {
                        Some(messages) => Some(StorePayloadModel::ReadOk { messages }),
                        None => None,
                    },
                    None => None,
                }
            } else if kind == "topology"@ {
                match record_at(body, "topology"@) {
                    Some(members) => match links_in(members) {
                        Some(topology) => Some(StorePayloadModel::Topology { topology }),
                        None => None,
                    },
                    None => None,
                }
            } else if kind == "topology_ok"@ {
                Some(StorePayloadModel::TopologyOk)
            } else {
                None
            },
            None => None,
        }
    }

    proof fn lemma_encoded_keys(value: StorePayloadModel) {
        lemma_store_keys();
        lemma_store_tags();
    }

    proof fn lemma_decoded_encoded(value: StorePayloadModel, body: Fields) {
        lemma_store_keys();
        let base = Self::encoded(value);
        assert(base.contains_key("type"@));
        match value {
            StorePayloadModel::Broadcast { message } => {
                assert(base.contains_key("message"@));
            },
            StorePayloadModel::ReadOk { messages } => {
                assert(base.contains_key("messages"@));
                lemma_sizes_round_trip(messages);
            },
            StorePayloadModel::Topology { topology } => {
                assert(base.contains_key("topology"@));
                lemma_links_round_trip(topology);
            },
            _ => {},
        }
    }

    fn encode(&self, body: &mut serde_json::Map<String, Value>) {
        match self {
            StorePayload::Broadcast { message } => {
                write_text(body, "type", "broadcast");
                write_size(body, "message", *message);
            },
            StorePayload::BroadcastOk => {
                write_text(body, "type", "broadcast_ok");
            },
            StorePayload::Read => {
                write_text(body, "type", "read");
            },
            StorePayload::ReadOk { messages } => {
                write_text(body, "type", "read_ok");
                write_sizes(body, "messages", messages);
            },
            StorePayload::Topology { topology } => {
                write_text(body, "type", "topology");
                write_record(body, "topology", topology.write());
            },
            StorePayload::TopologyOk => {
                write_text(body, "type", "topology_ok");
            },
        }
    }

    fn decode(body: &serde_json::Map<String, Value>) -> (r: Option<StorePayload>) {
        let kind = match read_text(body, "type") {
            Some(kind) => kind,
            None => { return None; },
        };
        if same_text(&kind, "broadcast") {
            match read_size(body, "message") {
                Some(message) => Some(StorePayload::Broadcast { message }),
                None => None,
            }
        } else if same_text(&kind, "broadcast_ok") {
            Some(StorePayload::BroadcastOk)
        } else if same_text(&kind, "read") {
            Some(StorePayload::Read)
        } else if same_text(&kind, "read_ok") {
            match read_list(body, "messages") {
                Some(items) => match read_sizes(items) {
                    Some(messages) => Some(StorePayload::ReadOk { messages }),
                    None => None,
                },
                None => None,
            }
        } else if same_text(&kind, "topology") {
            match read_record(body, "topology") {
                Some(members) => match Topology::read(members) {
                    Some(topology) => Some(StorePayload::Topology { topology }),
                    None => None,
                },
                None => None,
            }
        } else if same_text(&kind, "topology_ok") {
            Some(StorePayload::TopologyOk)
        } else {
            None
        }
    }
}

/// What the store answers to a payload while it holds `messages`, if it
/// answers at all.
pub open spec fn answer_to(
    messages: Seq<usize>,
    payload: StorePayloadModel,
) -> Option<StorePayloadModel> {
    match payload {
        StorePayloadModel::Broadcast { .. } => Some(StorePayloadModel::BroadcastOk),
        StorePayloadModel::Read => Some(StorePayloadModel::ReadOk { messages }),
        StorePayloadModel::Topology { .. } => Some(StorePayloadModel::TopologyOk),
        _ => None,
    }
}

/// The store answers the three requests and nothing else, and each answer
/// is tagged with the tag of its request followed by `_ok`.
pub proof fn lemma_answer_matches_request(messages: Seq<usize>, payload: StorePayloadModel)
    ensures
        answer_to(messages, payload) is Some <==> (payload is Broadcast || payload is Read
            || payload is Topology),
        answer_to(messages, payload) matches Some(answer) ==> tag_of::<StorePayload>(answer)
            == tag_of::<StorePayload>(payload) + "_ok"@,
{
    lemma_store_keys();
    reveal_strlit("_ok");
    reveal_strlit("broadcast");
    reveal_strlit("broadcast_ok");
    reveal_strlit("read");
    reveal_strlit("read_ok");
    reveal_strlit("topology");
    reveal_strlit("topology_ok");
    assert("broadcast"@ + "_ok"@ =~= "broadcast_ok"@);
    assert("read"@ + "_ok"@ =~= "read_ok"@);
    assert("topology"@ + "_ok"@ =~= "topology_ok"@);
}

/// A read is answered with exactly what the store holds, in the order of
/// arrival, and a broadcast adds its value at the end.
pub proof fn lemma_read_returns_what_was_stored(messages: Seq<usize>, message: usize)
    ensures
        answer_to(messages, StorePayloadModel::Read) == Some(
            StorePayloadModel::ReadOk { messages },
        ),
        stored_after(messages, StorePayloadModel::Broadcast { message }) == messages.push(
            message,
        ),
        answer_to(
            stored_after(messages, StorePayloadModel::Broadcast { message }),
            StorePayloadModel::Read,
        ) == Some(StorePayloadModel::ReadOk { messages: messages.push(message) }),
{
}

/// What the store holds after it has taken a payload in.
pub open spec fn stored_after(messages: Seq<usize>, payload: StorePayloadModel) -> Seq<usize> {
    match payload {
        StorePayloadModel::Broadcast { message } => messages.push(message),
        _ => messages,
    }
}

/// The store node: who it is, its message counter, and every value it was
/// sent, in the order of arrival.
pub struct StoreNode {
    pub node: String,
    pub ids: IdAllocator,
    pub messages: Vec<usize>,
}

impl Node<(), StorePayload, ()> for StoreNode {
    /// The node takes its name from the init request, starts counting at 1
    /// and holds nothing.
    fn from_init(seed: (), init: Init) -> (r: Result<StoreNode, Failure>)
        ensures
            r matches Ok(node) && node.node == init.node_id && node.ids.next_id() == 1
                && node.messages@ == Seq::<usize>::empty(),
    {
        Ok(StoreNode { node: init.node_id, ids: IdAllocator::new(), messages: Vec::new() })
    }

    /// Every message takes one id from the counter. A `broadcast` is stored
    /// and acknowledged, a `read` is answered with all that is stored, a
    /// `topology` is acknowledged and otherwise ignored; each answer carries
    /// the id taken as its `msg_id`. Any other message is taken in silence.
    /// The step fails, and changes nothing, on an injected event and where
    /// the counter has run out.
    fn step(
        &mut self,
        event: Event<StorePayload, ()>,
        outbox: &mut Vec<Message<StorePayload>>,
    ) -> (r: Result<(), Failure>)
        ensures
            match event {
                Event::Message(request) if old(self).ids.next_id() < u64::MAX => {
                    &&& r is Ok
                    &&& final(self).node == old(self).node
                    &&& final(self).ids == old(self).ids.after(1)
                    &&& final(self).messages@ == stored_after(
                        old(self).messages@,
                        request.body.payload@,
                    )
                    &&& models(final(outbox)@) == match answer_to(
                        old(self).messages@,
                        request.body.payload@,
                    ) {
                        Some(answer) => models(old(outbox)@).push(
                            request@.reply(Some(old(self).ids.next_id()), answer),
                        ),
                        None => models(old(outbox)@),
                    }
                },
                _ => r is Err && *final(self) == *old(self) && *final(outbox) == *old(outbox),
            },
    {
        match event {
            Event::Message(request) => {
                if !self.ids.has_next() {
                    return Err(Failure { reason: "message ids exhausted".to_owned() });
                }
                let mut reply = request.into_reply(Some(&mut self.ids));
                match reply.body.payload {
                    StorePayload::Broadcast { message } => {
                        self.messages.push(message);
                        reply.body.payload = StorePayload::BroadcastOk;
                        outbox.push(reply);
                    },
                    StorePayload::Read => {
                        reply.body.payload = StorePayload::ReadOk {
                            messages: self.messages.clone(),
                        };
                        outbox.push(reply);
                    },
                    StorePayload::Topology { topology: _ } => {
                        reply.body.payload = StorePayload::TopologyOk;
                        outbox.push(reply);
                    },
                    StorePayload::BroadcastOk
                    | StorePayload::ReadOk { .. }
                    | StorePayload::TopologyOk => {},
                }
                Ok(())
            },
            Event::Injected(_) => Err(
                Failure {
                    reason: "got injected event when there's no event injection".to_owned(),
                },
            ),
        }
    }
}

} // verus!
