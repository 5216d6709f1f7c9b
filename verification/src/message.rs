//! Message envelopes, their mathematical models, and reply construction.
use vstd::prelude::*;
use crate::ids::IdAllocator;

verus! {

/// The correlation ids and the payload of a message.
#[derive(Debug, Clone, PartialEq, Eq)]
pub struct Body<P> {
    /// The sender's id for this message, if it gave one.
    pub msg_id: Option<u64>,
    /// The id of the message that this one answers, if it answers one.
    pub in_reply_to: Option<u64>,
    pub payload: P,
}

/// One wire message: who sent it, whom it is for, and its body.
#[derive(Debug, Clone, PartialEq, Eq)]
pub struct Message<P> {
    pub src: String,
    pub dest: String,
    pub body: Body<P>,
}

/// What a handler is given: a message from the wire, or a value that some
/// producer other than the wire injected.
#[derive(Debug, Clone, PartialEq, Eq)]
pub enum Event<P, I> {
    Message(Message<P>),
    Injected(I),
}

/// The model of a [`Message`]: its texts as sequences of characters and its
/// payload as the payload's own model.
pub struct MessageModel<M> {
    pub src: Seq<char>,
    pub dest: Seq<char>,
    pub msg_id: Option<u64>,
    pub in_reply_to: Option<u64>,
    pub payload: M,
}

impl<M> MessageModel<M> {
    /// The reply to this message that carries `msg_id` as its own id and
    /// `payload` as its payload: source and destination change places, and
    /// `in_reply_to` is the id of the message answered.
    pub open spec fn reply<R>(self, msg_id: Option<u64>, payload: R) -> MessageModel<R> {
        MessageModel { src: self.dest, dest: self.src, msg_id, in_reply_to: self.msg_id, payload }
    }
}

/// The reply to a request goes back to its sender and names the request:
/// its `in_reply_to` is the request's `msg_id`, whatever id and payload the
/// reply itself carries.
pub proof fn lemma_reply_answers_request<M, R>(
    request: MessageModel<M>,
    msg_id: Option<u64>,
    payload: R,
)
    ensures
        request.reply(msg_id, payload).in_reply_to == request.msg_id,
        request.reply(msg_id, payload).src == request.dest,
        request.reply(msg_id, payload).dest == request.src,
        request.reply(msg_id, payload).msg_id == msg_id,
        request.reply(msg_id, payload).payload == payload,
{
}

impl<P: View> View for Message<P> {
    type V = MessageModel<P::V>;

    open spec fn view(&self) -> MessageModel<P::V> {
        MessageModel {
            src: self.src@,
            dest: self.dest@,
            msg_id: self.body.msg_id,
            in_reply_to: self.body.in_reply_to,
            payload: self.body.payload@,
        }
    }
}

impl<P> Message<P> {
    /// This message turned round, with `msg_id` as its own id: the value that
    /// [`Message::into_reply`] returns.
    pub open spec fn turned(self, msg_id: Option<u64>) -> Message<P> {
        Message {
            src: self.dest,
            dest: self.src,
            body: Body { msg_id, in_reply_to: self.body.msg_id, payload: self.body.payload },
        }
    }

    /// Turns a received message into the frame of its reply. Source and
    /// destination change places and `in_reply_to` becomes the id of the
    /// message received, unset where it had none. With an allocator the
    /// reply takes a fresh id from it; without one it carries none. The
    /// payload is handed on as it came, for the caller to overwrite.
    pub fn into_reply(self, ids: Option<&mut IdAllocator>) -> (reply: Message<P>)
        requires
            ids matches Some(a) ==> a.next_id() < u64::MAX,
        ensures
            match ids {
                Some(a) => reply == self.turned(Some(a.next_id())) && *final(a) == a.after(1),
                None => reply == self.turned(None),
            },
    {
        let msg_id: Option<u64> = match ids {
            Some(a) => Some(a.allocate()),
            None => None,
        };
        Message {
            src: self.dest,
            dest: self.src,
            body: Body { msg_id, in_reply_to: self.body.msg_id, payload: self.body.payload },
        }
    }

    /// A message that this node sends of its own accord: it answers nothing
    /// and takes a fresh id from the allocator.
    pub fn originate(src: String, dest: String, payload: P, ids: &mut IdAllocator) -> (message:
        Message<P>)
        requires
            old(ids).next_id() < u64::MAX,
        ensures
            message == (Message {
                src,
                dest,
                body: Body { msg_id: Some(old(ids).next_id()), in_reply_to: None, payload },
            }),
            *final(ids) == old(ids).after(1),
    {
        let msg_id: u64 = ids.allocate();
        Message { src, dest, body: Body { msg_id: Some(msg_id), in_reply_to: None, payload } }
    }

    /// A reply names the request it answers: it carries the request's id as
    /// `in_reply_to`, whatever id it takes for itself.
    pub proof fn lemma_reply_correlates(self, msg_id: Option<u64>)
        ensures
            self.turned(msg_id).body.in_reply_to == self.body.msg_id,
            self.turned(msg_id).src == self.dest,
            self.turned(msg_id).dest == self.src,
    {
    }

    /// Replies to requests with different ids never share an `in_reply_to`:
    /// no reply can be taken for the answer to another request.
    pub proof fn lemma_replies_do_not_collide(
        self,
        other: Message<P>,
        msg_id: Option<u64>,
        other_msg_id: Option<u64>,
    )
        requires
            self.body.msg_id != other.body.msg_id,
        ensures
            self.turned(msg_id).body.in_reply_to != other.turned(other_msg_id).body.in_reply_to,
    {
    }
}

/// The models of a sequence of messages, in order.
pub open spec fn models<P: View>(messages: Seq<Message<P>>) -> Seq<MessageModel<P::V>> {
    Seq::new(messages.len(), |i: int| messages[i]@)
}

} // verus!
