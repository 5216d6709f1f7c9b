//! A node that hands out ids which are unique across the cluster: its own
//! node id, a hyphen, and the value of its message counter.
use vstd::prelude::*;
use serde_json::Value;
use crate::error::Failure;
use crate::fields::{read_text, same_text, text_at, write_text};
use crate::ids::IdAllocator;
use crate::init::Init;
use crate::json::{Fields, JsonTree};
use crate::message::{models, Event, Message};
use crate::node::Node;
use crate::text::{decimal, decimal_text, lemma_decimal_injective};
use crate::wire::{is_snake_case, tag_of, Payload};

verus! {

/// What the id node is asked and what it answers.
#[derive(Debug, Clone, PartialEq, Eq)]
pub enum GeneratePayload {
    Generate,
    /// On the wire the id travels under the key `id`.
    GenerateOk { guid: String },
}

/// The model of [`GeneratePayload`].
pub enum GeneratePayloadModel {
    Generate,
    GenerateOk { guid: Seq<char> },
}

impl View for GeneratePayload {
    type V = GeneratePayloadModel;

    open spec fn view(&self) -> GeneratePayloadModel {
        match self {
            GeneratePayload::Generate => GeneratePayloadModel::Generate,
            GeneratePayload::GenerateOk { guid } => GeneratePayloadModel::GenerateOk {
                guid: guid@,
            },
        }
    }
}

/// The tags and keys of the id node differ from one another and from the
/// keys that the envelope keeps in the body.
pub proof fn lemma_generate_keys()
    ensures
        "generate"@ != "generate_ok"@,
        "type"@ != "id"@,
        "type"@ != "msg_id"@,
        "type"@ != "in_reply_to"@,
        "id"@ != "msg_id"@,
        "id"@ != "in_reply_to"@,
{
    reveal_strlit("generate");
    reveal_strlit("generate_ok");
    reveal_strlit("type");
    reveal_strlit("id");
    reveal_strlit("msg_id");
    reveal_strlit("in_reply_to");
    assert("generate"@.len() == 8);
    assert("generate_ok"@.len() == 11);
    assert("type"@.len() == 4);
    assert("id"@.len() == 2);
    assert("msg_id"@.len() == 6);
    assert("in_reply_to"@.len() == 11);
}

/// The tags of the id node are written in snake case.
pub proof fn lemma_generate_tags()
    ensures
        is_snake_case("generate"@),
        is_snake_case("generate_ok"@),
{
    reveal_strlit("generate");
    reveal_strlit("generate_ok");
    assert("generate"@.len() == 8);
    assert("generate_ok"@.len() == 11);
}

impl Payload for GeneratePayload {
    open spec fn encoded(value: GeneratePayloadModel) -> Fields {
        match value {
            GeneratePayloadModel::Generate => Fields::empty().insert(
                "type"@,
                JsonTree::Text("generate"@),
            ),
            GeneratePayloadModel::GenerateOk { guid } => Fields::empty().insert(
                "type"@,
                JsonTree::Text("generate_ok"@),
            ).insert("id"@, JsonTree::Text(guid)),
        }
    }

    open spec fn decoded(body: Fields) -> Option<GeneratePayloadModel> {
        match text_at(body, "type"@) {
            Some(kind) => if kind == "generate"@ {
                Some(GeneratePayloadModel::Generate)
            } else if kind == "generate_ok"@ {
                match text_at(body, "id"@) {
                    Some(guid) => Some(GeneratePayloadModel::GenerateOk { guid }),
                    None => None,
                }
            } else {
                None
            },
            None => None,
        }
    }

    proof fn lemma_encoded_keys(value: GeneratePayloadModel) {
        lemma_generate_keys();
        lemma_generate_tags();
    }

    proof fn lemma_decoded_encoded(value: GeneratePayloadModel, body: Fields) {
        lemma_generate_keys();
        let base = Self::encoded(value);
        assert(base.contains_key("type"@));
        match value {
            GeneratePayloadModel::Generate => {},
            GeneratePayloadModel::GenerateOk { guid } => {
                assert(base.contains_key("id"@));
            },
        }
    }

    fn encode(&self, body: &mut serde_json::Map<String, Value>) {
        match self {
            GeneratePayload::Generate => {
                write_text(body, "type", "generate");
            },
            GeneratePayload::GenerateOk { guid } => {
                write_text(body, "type", "generate_ok");
                write_text(body, "id", guid.as_str());
            },
        }
    }

    fn decode(body: &serde_json::Map<String, Value>) -> (r: Option<GeneratePayload>) {
        let kind = match read_text(body, "type") {
            Some(kind) => kind,
            None => { return None; },
        };
        if same_text(&kind, "generate") {
            Some(GeneratePayload::Generate)
        } else if same_text(&kind, "generate_ok") {
            match read_text(body, "id") {
                Some(guid) => Some(GeneratePayload::GenerateOk { guid }),
                None => None,
            }
        } else {
            None
        }
    }
}

/// The id that node `node` generates while its counter stands at `counter`.
pub open spec fn guid_of(node: Seq<char>, counter: u64) -> Seq<char> {
    node + "-"@ + decimal(counter as nat)
}

/// One node never generates the same id at two different counter values.
pub proof fn lemma_guids_differ(node: Seq<char>, a: u64, b: u64)
    requires
        a != b,
    ensures
        guid_of(node, a) != guid_of(node, b),
{
    if guid_of(node, a) == guid_of(node, b) {
        let prefix = node + "-"@;
        let ga = guid_of(node, a);
        let gb = guid_of(node, b);
        assert(ga.subrange(prefix.len() as int, ga.len() as int) =~= decimal(a as nat));
        assert(gb.subrange(prefix.len() as int, gb.len() as int) =~= decimal(b as nat));
        lemma_decimal_injective(a as nat, b as nat);
    }
}

/// The ids that one node generates never repeat: the id generated after
/// one or more further messages differs from the id generated now.
pub proof fn lemma_later_guid_differs(node: Seq<char>, ids: IdAllocator, gap: nat)
    requires
        gap >= 1,
        ids.next_id() + gap < u64::MAX,
    ensures
        guid_of(node, (ids.after(gap).next_id() + 1) as u64) != guid_of(
            node,
            (ids.next_id() + 1) as u64,
        ),
{
    ids.lemma_after_next_id(gap);
    lemma_guids_differ(
        node,
        (ids.after(gap).next_id() + 1) as u64,
        (ids.next_id() + 1) as u64,
    );
}

/// What the id node called `node` answers to a payload for which it took
/// the id `taken` from its counter, if it answers at all: a `generate` gets
/// the id made of the node's name and the counter's new value.
pub open spec fn answer_to(
    node: Seq<char>,
    taken: u64,
    payload: GeneratePayloadModel,
) -> Option<GeneratePayloadModel>
    recommends
        taken < u64::MAX,
{
    match payload {
        GeneratePayloadModel::Generate => Some(
            GeneratePayloadModel::GenerateOk { guid: guid_of(node, (taken + 1) as u64) },
        ),
        GeneratePayloadModel::GenerateOk { .. } => None,
    }
}

/// The id node answers a `generate` and nothing else, and the answer is
/// tagged with the tag of the request followed by `_ok`.
pub proof fn lemma_answer_matches_request(
    node: Seq<char>,
    taken: u64,
    payload: GeneratePayloadModel,
)
    ensures
        answer_to(node, taken, payload) is Some <==> payload is Generate,
        answer_to(node, taken, payload) matches Some(answer) ==> tag_of::<GeneratePayload>(
            answer,
        ) == tag_of::<GeneratePayload>(payload) + "_ok"@,
{
    lemma_generate_keys();
    reveal_strlit("_ok");
    reveal_strlit("generate");
    reveal_strlit("generate_ok");
    assert("generate"@ + "_ok"@ =~= "generate_ok"@);
}

/// Writes the id that `node` generates at `counter`.
pub fn guid_text(node: &String, counter: u64) -> (guid: String)
    ensures
        guid@ == guid_of(node@, counter),
{
    let mut guid: String = node.clone();
    guid.append("-");
    let digits: String = decimal_text(counter);
    guid.append(digits.as_str());
    guid
}

/// The id node: who it is, and its message counter.
pub struct UniqueNode {
    pub node: String,
    pub ids: IdAllocator,
}

impl Node<(), GeneratePayload, ()> for UniqueNode {
    /// The node takes its name from the init request and starts counting
    /// at 1.
    fn from_init(seed: (), init: Init) -> (r: Result<UniqueNode, Failure>)
        ensures
            r matches Ok(node) && node.node == init.node_id && node.ids.next_id() == 1,
    {
        Ok(UniqueNode { node: init.node_id, ids: IdAllocator::new() })
    }

    /// Every message takes one id from the counter. A `generate` is answered
    /// with a `generate_ok` that carries that id as its `msg_id` and, as the
    /// generated id, the node's name with the counter's new value; any other
    /// message is taken in silence. The step fails, and changes nothing, on
    /// an injected event and where the counter has run out.
    fn step(
        &mut self,
        event: Event<GeneratePayload, ()>,
        outbox: &mut Vec<Message<GeneratePayload>>,
    ) -> (r: Result<(), Failure>)
        ensures
            match event {
                Event::Message(request) if old(self).ids.next_id() < u64::MAX => {
                    &&& r is Ok
                    &&& final(self).node == old(self).node
                    &&& final(self).ids == old(self).ids.after(1)
                    &&& models(final(outbox)@) == match answer_to(
                        old(self).node@,
                        old(self).ids.next_id(),
                        request.body.payload@,
                    ) {
                        Some(answer) => models(old(outbox)@).push(
                            request@.reply(Some(old(self).ids.next_id()), answer),
                        ),
                        None => models(old(outbox)@),
                    }
                },
                _ => r is Err && *final(self) == *old(self) && *final(outbox) == *old(outbox),
            },
    {
        match event {
            Event::Message(request) => {
                if !self.ids.has_next() {
                    return Err(Failure { reason: "message ids exhausted".to_owned() });
                }
                proof {
                    self.ids.lemma_after_next_id(1);
                }
                let mut reply = request.into_reply(Some(&mut self.ids));
                match reply.body.payload {
                    GeneratePayload::Generate => {
                        let guid = guid_text(&self.node, self.ids.peek());
                        reply.body.payload = GeneratePayload::GenerateOk { guid };
                        outbox.push(reply);
                    },
                    GeneratePayload::GenerateOk { .. } => {},
                }
                Ok(())
            },
            Event::Injected(_) => Err(
                Failure {
                    reason: "got injected event when there's no event injection".to_owned(),
                },
            ),
        }
    }
}

} // verus!
