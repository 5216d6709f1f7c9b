//! The runtime's state machine. It waits for the init request, then hands
//! every event to the node it hosts, and stops at the end of input or at
//! the first error.
//!
//! The state machine does no input or output of its own. It is given one
//! input at a time and answers with the lines to write and with what to do
//! next; the embedding program reads, writes and feeds it.
use vstd::prelude::*;
use serde_json::Value;
use crate::error::{Failure, RuntimeError};
use crate::fields::{record_at, same_text};
use crate::init::{
    acknowledge, init_ok_for, init_request_of, read_init_request, Init, InitModel, InitPayload,
};
use crate::json::{parse_text, parsed, rendered, tree_of, JsonTree};
use crate::message::{models, Event, Message, MessageModel};
use crate::node::Node;
use crate::wire::{frame_of, message_in, message_tree, Frame, Payload};

verus! {

/// One thing that happens to a node.
#[derive(Debug, Clone, PartialEq, Eq)]
pub enum Input<I> {
    /// A line arrived on the wire.
    Line(String),
    /// A producer other than the wire injected a value.
    Injected(I),
    /// Both feeds are closed: nothing more will come.
    Closed,
    /// A line that the runtime gave out could not be written.
    OutputFailed,
}

/// What the embedding program does after an input.
#[derive(Debug, Clone, PartialEq, Eq)]
pub enum Status {
    /// Feed the next input.
    Continue,
    /// The node has ended cleanly.
    Finished,
    /// The node has failed.
    Failed(RuntimeError),
}

/// The runtime's answer to one input: the lines to write, in order, each as
/// one document followed by a newline, and what to do then.
#[derive(Debug, Clone, PartialEq, Eq)]
pub struct Outcome {
    pub lines: Vec<String>,
    pub status: Status,
}

/// What an input amounts to for a running node.
#[derive(Debug, Clone, PartialEq, Eq)]
pub enum Next<P, I> {
    /// An event for the handler.
    Event(Event<P, I>),
    /// The end of input.
    End,
    /// A line that no handler may see.
    Invalid(RuntimeError),
}

/// The states of a node's life.
pub enum Runtime<S, N> {
    /// Nothing has arrived yet; the value is what the node will be built
    /// with.
    AwaitingInit(S),
    /// The handshake is done; the value is the node.
    Running(N),
    /// The node has ended, cleanly or not.
    Terminated,
}

/// What a message after the handshake must be: a message of the node's
/// payload type. A value that holds no such message is malformed; another
/// `init` breaks the protocol.
pub open spec fn request_of<P: Payload>(tree: JsonTree) -> Result<
    MessageModel<P::V>,
    RuntimeError,
> {
    match frame_of(tree) {
        Some(frame) => if frame.kind == "init"@ {
            Err(RuntimeError::ProtocolViolation)
        } else {
            match message_in::<P>(frame) {
                Some(message) => Ok(message),
                None => Err(RuntimeError::MalformedInput),
            }
        },
        None => Err(RuntimeError::MalformedInput),
    }
}

/// What the first line of input must be: JSON that holds an init request.
pub open spec fn init_request_on(line: Seq<char>) -> Result<MessageModel<InitModel>, RuntimeError> {
    match parsed(line) {
        Some(tree) => init_request_of(tree),
        None => Err(RuntimeError::MalformedInput),
    }
}

/// What a later line of input must be: JSON that holds a message of the
/// node's payload type.
pub open spec fn request_on<P: Payload>(line: Seq<char>) -> Result<
    MessageModel<P::V>,
    RuntimeError,
> {
    match parsed(line) {
        Some(tree) => request_of::<P>(tree),
        None => Err(RuntimeError::MalformedInput),
    }
}

/// Whether a JSON value is a message but for the `type` of its body: an
/// object whose `body` is an object without that member.
pub open spec fn lacks_type(tree: JsonTree) -> bool {
    match tree {
        JsonTree::Record(top) => match record_at(top, "body"@) {
            Some(body) => !body.contains_key("type"@),
            None => false,
        },
        _ => false,
    }
}

/// A first line that is not JSON, or whose body has no `type`, is malformed
/// input: by the contract of [`Runtime::advance`] the node then ends with
/// that error and writes nothing.
pub proof fn lemma_malformed_first_line(line: Seq<char>)
    requires
        match parsed(line) {
            Some(tree) => lacks_type(tree),
            None => true,
        },
    ensures
        init_request_on(line) == Err::<MessageModel<InitModel>, RuntimeError>(
            RuntimeError::MalformedInput,
        ),
{
}

/// The line that a message is written as.
pub open spec fn line_of<P: Payload>(message: MessageModel<P::V>) -> Seq<char> {
    rendered(message_tree::<P>(message))
}

/// The lines that a sequence of messages is written as.
pub open spec fn lines_of<P: Payload>(messages: Seq<MessageModel<P::V>>) -> Seq<Seq<char>> {
    Seq::new(messages.len(), |i: int| line_of::<P>(messages[i]))
}

/// Reads a message that arrives after the handshake out of a JSON value.
pub fn read_request<P: Payload>(value: &Value) -> (r: Result<Message<P>, RuntimeError>)
    ensures
        match r {
            Ok(message) => request_of::<P>(tree_of(*value)) == Ok::<
                MessageModel<P::V>,
                RuntimeError,
            >(message@),
            Err(e) => request_of::<P>(tree_of(*value)) == Err::<MessageModel<P::V>, RuntimeError>(
                e,
            ),
        },
{
    let frame = match Frame::read(value) {
        Some(frame) => frame,
        None => { return Err(RuntimeError::MalformedInput); },
    };
    if same_text(&frame.kind, "init") {
        return Err(RuntimeError::ProtocolViolation);
    }
    match frame.into_message::<P>() {
        Some(message) => Ok(message),
        None => Err(RuntimeError::MalformedInput),
    }
}

/// Turns an input into the event that a running node is to handle. A line
/// becomes the message it holds, an injected value is handed on as it is,
/// and the end of input is the end. A line that holds no request is invalid,
/// with the error that [`request_on`] gives, and so is a failed write, with
/// `IoError`.
pub fn next_event<P: Payload, I>(input: Input<I>) -> (next: Next<P, I>)
    ensures
        match input {
            Input::Line(line) => match request_on::<P>(line@) {
                Ok(request) => next matches Next::Event(Event::Message(message)) && message@
                    == request,
                Err(error) => next == Next::<P, I>::Invalid(error),
            },
            Input::Injected(injected) => next == Next::<P, I>::Event(Event::Injected(injected)),
            Input::Closed => next == Next::<P, I>::End,
            Input::OutputFailed => next == Next::<P, I>::Invalid(RuntimeError::IoError),
        },
{
    match input {
        Input::Line(line) => {
            let value = match parse_text(line.as_str()) {
                Ok(value) => value,
                Err(_) => { return Next::Invalid(RuntimeError::MalformedInput); },
            };
            match read_request::<P>(&value) {
                Ok(message) => Next::Event(Event::Message(message)),
                Err(error) => Next::Invalid(error),
            }
        },
        Input::Injected(injected) => Next::Event(Event::Injected(injected)),
        Input::Closed => Next::End,
        Input::OutputFailed => Next::Invalid(RuntimeError::IoError),
    }
}

/// Writes each message as a line, in order. Every message can be written:
/// the result is always `Ok`.
pub fn write_all<P: Payload>(messages: &Vec<Message<P>>) -> (r: Result<Vec<String>, RuntimeError>)
    ensures
        r matches Ok(lines) && lines.deep_view() == lines_of::<P>(models(messages@)),
{
    let mut lines: Vec<String> = Vec::new();
    let mut i: usize = 0;
    while i < messages.len()
        invariant
            i <= messages.len(),
            lines.len() == i,
            forall|j: int| 0 <= j < i ==> (#[trigger] lines[j])@ == line_of::<P>(messages[j]@),
        decreases messages.len() - i,
    {
        match messages[i].to_line() {
            Ok(line) => {
                lines.push(line);
            },
            Err(e) => { return Err(e); },
        }
        i += 1;
    }
    Ok(lines)
}

/// Takes the first line of input: reads the init request from it and
/// writes the acknowledgment. It succeeds on every line that holds an init
/// request, with the data of the request and the line that acknowledges
/// it; on any other line the error is that of [`init_request_on`].
pub fn open_handshake(line: &str) -> (r: Result<(Init, String), RuntimeError>)
    ensures
        match init_request_on(line@) {
            Ok(request) => r matches Ok((init, ack)) && init@ == request.payload && ack@
                == line_of::<InitPayload>(init_ok_for(request)),
            Err(expected) => r == Err::<(Init, String), RuntimeError>(expected),
        },
{
    let value = match parse_text(line) {
        Ok(value) => value,
        Err(_) => { return Err(RuntimeError::MalformedInput); },
    };
    let request = match read_init_request(&value) {
        Ok(request) => request,
        Err(e) => { return Err(e); },
    };
    let ack = match acknowledge(&request).to_line() {
        Ok(ack) => ack,
        Err(e) => { return Err(e); },
    };
    Ok((request.body.payload, ack))
}

/// Whether a state and an outcome go together after a node took a step:
/// the runtime runs on exactly where the outcome says to continue, and has
/// ended with the handler's failure where it does not.
pub open spec fn stepped<S, N>(next: Runtime<S, N>, outcome: Outcome) -> bool {
    match outcome.status {
        Status::Continue => next is Running,
        Status::Failed(RuntimeError::HandlerError(_)) => next is Terminated,
        _ => false,
    }
}

impl<S, N> Runtime<S, N> {
    /// A runtime that awaits the init request.
    pub fn new(seed: S) -> (runtime: Runtime<S, N>)
        ensures
            runtime == Runtime::<S, N>::AwaitingInit(seed),
    {
        Runtime::AwaitingInit(seed)
    }

    /// Ends the node with an error and nothing written.
    pub fn halt(error: RuntimeError) -> (r: (Runtime<S, N>, Outcome))
        ensures
            r.0 == Runtime::<S, N>::Terminated,
            r.1.lines@.len() == 0,
            r.1.status == Status::Failed(error),
    {
        (Runtime::Terminated, Outcome { lines: Vec::new(), status: Status::Failed(error) })
    }

    /// Ends the node cleanly, with nothing written.
    pub fn finish() -> (r: (Runtime<S, N>, Outcome))
        ensures
            r.0 == Runtime::<S, N>::Terminated,
            r.1.lines@.len() == 0,
            r.1.status == Status::Finished,
    {
        (Runtime::Terminated, Outcome { lines: Vec::new(), status: Status::Finished })
    }

    /// Completes the handshake once the acknowledgment is written and the
    /// node's construction has been tried. The acknowledgment goes out
    /// either way; the node runs where it was built, and the runtime ends
    /// with the handler's failure where it was not.
    pub fn begin(ack: String, built: Result<N, Failure>) -> (r: (Runtime<S, N>, Outcome))
        ensures
            r.1.lines@ == seq![ack],
            match built {
                Ok(node) => r.0 == Runtime::<S, N>::Running(node) && r.1.status
                    == Status::Continue,
                Err(failure) => r.0 == Runtime::<S, N>::Terminated && r.1.status
                    == Status::Failed(RuntimeError::HandlerError(failure)),
            },
    {
        let mut lines: Vec<String> = Vec::new();
        lines.push(ack);
        match built {
            Ok(node) => (Runtime::Running(node), Outcome { lines, status: Status::Continue }),
            Err(failure) => (
                Runtime::Terminated,
                Outcome { lines, status: Status::Failed(RuntimeError::HandlerError(failure)) },
            ),
        }
    }

    /// Decides how the runtime goes on after a step, from what the step
    /// returned and from what became of writing its messages. Where they
    /// could not be written the runtime ends with that error and writes
    /// nothing. Else every line goes out; the node runs on where the step
    /// succeeded, and the runtime ends with the handler's failure where it
    /// did not.
    pub fn settle(
        node: N,
        result: Result<(), Failure>,
        written: Result<Vec<String>, RuntimeError>,
    ) -> (r: (Runtime<S, N>, Outcome))
        ensures
            match written {
                Ok(lines) => r.1.lines == lines && match result {
                    Ok(_) => r.0 == Runtime::<S, N>::Running(node) && r.1.status
                        == Status::Continue,
                    Err(failure) => r.0 == Runtime::<S, N>::Terminated && r.1.status
                        == Status::Failed(RuntimeError::HandlerError(failure)),
                },
                Err(error) => r.0 == Runtime::<S, N>::Terminated && r.1.lines@.len() == 0
                    && r.1.status == Status::Failed(error),
            },
    {
        match written {
            Ok(lines) => match result {
                Ok(_) => (Runtime::Running(node), Outcome { lines, status: Status::Continue }),
                Err(failure) => (
                    Runtime::Terminated,
                    Outcome { lines, status: Status::Failed(RuntimeError::HandlerError(failure)) },
                ),
            },
            Err(error) => Self::halt(error),
        }
    }

    /// Hands one event to the node, writes the messages that its step left
    /// in the outbox, and settles what comes of it as [`Runtime::settle`]
    /// says. What the step does is the node's affair: the contract states
    /// only what holds of every step.
    pub fn dispatch<P: Payload, I>(node: N, event: Event<P, I>) -> (r: (
        Runtime<S, N>,
        Outcome,
    )) where N: Node<S, P, I>

        ensures
            stepped(r.0, r.1),
    {
        let mut node = node;
        let mut outbox: Vec<Message<P>> = Vec::new();
        let result = node.step(event, &mut outbox);
        let written = write_all(&outbox);
        Self::settle(node, result, written)
    }

    /// Takes one input and says what to write and how to go on.
    ///
    /// Before the handshake only a line that holds an init request is
    /// accepted: its acknowledgment is the one line written, whatever
    /// becomes of building the node from it, and [`Runtime::begin`] says
    /// how the runtime goes on. Anything else ends the node, a line with
    /// the error that [`init_request_on`] gives and an injected value or
    /// the end of input as a protocol violation, with nothing written.
    ///
    /// A write that failed ends the node with `IoError`, whatever state it
    /// is in.
    ///
    /// After the handshake the end of input ends the node cleanly, a line
    /// that holds no request ends it with the error that [`request_on`]
    /// gives, and every other input is the node's to handle: [`next_event`]
    /// says which event it is given, and [`Runtime::settle`] what follows
    /// from its step.
    ///
    /// A node that has ended stays so, writes nothing, and reports
    /// `Finished` to any other input.
    pub fn advance<P: Payload, I>(self, input: Input<I>) -> (r: (Runtime<S, N>, Outcome)) where
        N: Node<S, P, I>,

        ensures
            match self {
                Runtime::AwaitingInit(_) => match input {
                    Input::Line(line) => match init_request_on(line@) {
                        Ok(request) => {
                            &&& r.1.lines.deep_view() == seq![
                                line_of::<InitPayload>(init_ok_for(request)),
                            ]
                            &&& stepped(r.0, r.1)
                        },
                        Err(error) => r.0 is Terminated && r.1.lines@.len() == 0 && r.1.status
                            == Status::Failed(error),
                    },
                    Input::OutputFailed => r.0 is Terminated && r.1.lines@.len() == 0
                        && r.1.status == Status::Failed(RuntimeError::IoError),
                    _ => r.0 is Terminated && r.1.lines@.len() == 0 && r.1.status
                        == Status::Failed(RuntimeError::ProtocolViolation),
                },
                Runtime::Running(_) => match input {
                    Input::Line(line) => match request_on::<P>(line@) {
                        Ok(_) => stepped(r.0, r.1),
                        Err(error) => r.0 is Terminated && r.1.lines@.len() == 0 && r.1.status
                            == Status::Failed(error),
                    },
                    Input::Injected(_) => stepped(r.0, r.1),
                    Input::Closed => r.0 is Terminated && r.1.lines@.len() == 0 && r.1.status
                        == Status::Finished,
                    Input::OutputFailed => r.0 is Terminated && r.1.lines@.len() == 0
                        && r.1.status == Status::Failed(RuntimeError::IoError),
                },
                Runtime::Terminated => match input {
                    Input::OutputFailed => r.0 is Terminated && r.1.lines@.len() == 0
                        && r.1.status == Status::Failed(RuntimeError::IoError),
                    _ => r.0 is Terminated && r.1.lines@.len() == 0 && r.1.status
                        == Status::Finished,
                },
            },
    {
        match self {
            Runtime::AwaitingInit(seed) => match input {
                Input::Line(line) => match open_handshake(line.as_str()) {
                    Ok((init, ack)) => Self::begin(ack, N::from_init(seed, init)),
                    Err(error) => Self::halt(error),
                },
                Input::OutputFailed => Self::halt(RuntimeError::IoError),
                _ => Self::halt(RuntimeError::ProtocolViolation),
            },
            Runtime::Running(node) => match next_event::<P, I>(input) {
                Next::Event(event) => Self::dispatch(node, event),
                Next::End => Self::finish(),
                Next::Invalid(error) => Self::halt(error),
            },
            Runtime::Terminated => match input {
                Input::OutputFailed => Self::halt(RuntimeError::IoError),
                _ => Self::finish(),
            },
        }
    }
}

} // verus!
