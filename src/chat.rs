//! A session over one socket, and the prompt's commands carried out on it.

use crate::command::ChatCommand;
use crate::socket::{all_succeeded, create_socket, setup_ops, usable_address, SocketParameters, SocketType};
use crate::transport::{
    frame_bytes, decode_text, receive_failure, receive_frames, send_frame, send_two_frames, set_receive_timeout,
    Endpoint, SocketOp,
};
use vstd::prelude::*;
use vstd::utf8::{decode_utf8, valid_utf8};

verus! {

/// How long a receive waits for a message, in milliseconds, before it reports
/// that nothing came.
pub const RECEIVE_TIMEOUT_MS: i32 = 100;

/// Why an operation of a session did not succeed.
#[derive(Debug)]
pub enum ChatError {
    /// The address is of no known scheme, or holds a NUL character.
    InvalidAddress,
    /// Both binding and connecting were asked for.
    ConflictingAssociation,
    /// Nothing arrived within the receive timeout.
    Timeout,
    /// A frame of the message received is not valid UTF-8.
    Decode,
    /// An addressed send was asked of a socket that is not a router.
    NotRouter,
    /// The transport refused the operation.
    Transport(zmq::Error),
}

/// A session: one socket, owned for the session's lifetime.
pub struct Chat {
    #[allow(dead_code)]
    ctx: zmq::Context,
    endpoint: Endpoint,
    socket_type: SocketType,
}

/// The frames of a message that carries `topic`, where there is one, in a
/// frame of its own before `message`.
pub open spec fn topic_frames(topic: Option<&str>, message: Seq<char>) -> Seq<Seq<char>> {
    match topic {
        Some(t) => seq![t@, message],
        None => seq![message],
    }
}

/// Whether `entry` records a receive whose result is `r`: the frames that
/// came back, decoded, or `Decode` where one of them is no text; `Timeout` or
/// the transport's error where the call failed.
pub open spec fn receive_recorded(entry: (SocketOp, bool), r: Result<Vec<String>, ChatError>) -> bool {
    match entry.0 {
        SocketOp::Receive(got) => match r {
            Ok(texts) => entry.1 && all_text(got) && decodes_to(texts@, got),
            Err(ChatError::Decode) => entry.1 && !all_text(got),
            Err(ChatError::Timeout) => !entry.1,
            Err(ChatError::Transport(_)) => !entry.1,
            Err(_) => false,
        },
        _ => false,
    }
}

/// Whether `entry` records the receive that the outcome `r` reports: the
/// frames that came back, decoded; a failure to decode them; or, where the
/// call failed, nothing new or the transport's error.
pub open spec fn receive_reported(entry: (SocketOp, bool), r: ChatOutcome) -> bool {
    match entry.0 {
        SocketOp::Receive(got) => match r {
            ChatOutcome::Received(texts) => entry.1 && all_text(got) && decodes_to(texts@, got),
            ChatOutcome::Failed(ChatError::Decode) => entry.1 && !all_text(got),
            ChatOutcome::NothingYet => !entry.1,
            ChatOutcome::Failed(ChatError::Transport(_)) => !entry.1,
            _ => false,
        },
        _ => false,
    }
}

impl Chat {
    /// The pattern of the session's socket.
    pub closed spec fn kind(&self) -> SocketType {
        self.socket_type
    }

    /// The calls made on the session's socket, oldest first, each with
    /// whether it succeeded.
    pub closed spec fn calls(&self) -> Seq<(SocketOp, bool)> {
        self.endpoint.calls()
    }

    pub fn socket_type(&self) -> (r: SocketType)
        ensures
            r == self.kind(),
    {
        self.socket_type
    }

    /// Opens a session as `parameters` describe, whose receives wait at most
    /// `RECEIVE_TIMEOUT_MS`; the factory's errors come back as they are.
    pub fn new(parameters: &SocketParameters) -> (r: Result<Self, ChatError>)
        ensures
            r matches Err(ChatError::InvalidAddress) <==> !usable_address(parameters.address@),
            r matches Err(e) ==> e is InvalidAddress || e is Transport,
            r matches Ok(c) ==> c.kind() == parameters.socket_type && c.calls() == all_succeeded(
                setup_ops(*parameters).push(SocketOp::SetReceiveTimeout(RECEIVE_TIMEOUT_MS as int)),
            ),
    {
        let ctx = zmq::Context::new();
        let mut endpoint = create_socket(&ctx, parameters)?;
        if let Err(e) = set_receive_timeout(&mut endpoint, RECEIVE_TIMEOUT_MS) {
            return Err(ChatError::Transport(e));
        }
        assert(endpoint.calls() =~= all_succeeded(
            setup_ops(*parameters).push(SocketOp::SetReceiveTimeout(RECEIVE_TIMEOUT_MS as int)),
        ));
        Ok(Chat { ctx, endpoint, socket_type: parameters.socket_type })
    }

    /// Writes `message` as a message of one frame.
    pub fn send(&mut self, message: &str) -> (r: Result<(), ChatError>)
        ensures
            final(self).kind() == old(self).kind(),
            final(self).calls() == old(self).calls().push(
                (SocketOp::Send(seq![message@]), r is Ok),
            ),
            r matches Err(e) ==> e is Transport,
    {
        match send_frame(&mut self.endpoint, message) {
            Ok(()) => Ok(()),
            Err(e) => Err(ChatError::Transport(e)),
        }
    }

    /// Writes `message` to the peer whose identity is `id`: a message of two
    /// frames, the identity then the payload. Only a router can address its
    /// peers; on any other session nothing is sent.
    pub fn send_with_id(&mut self, id: &str, message: &str) -> (r: Result<(), ChatError>)
        ensures
            final(self).kind() == old(self).kind(),
            old(self).kind() != SocketType::ROUTER ==> (r matches Err(ChatError::NotRouter))
                && final(self).calls() == old(self).calls(),
            old(self).kind() == SocketType::ROUTER ==> final(self).calls() == old(self).calls().push(
                (SocketOp::Send(seq![id@, message@]), r is Ok),
            ),
            r matches Err(e) ==> (e is NotRouter <==> old(self).kind() != SocketType::ROUTER)
                && (e is NotRouter || e is Transport),
    {
        if self.socket_type != SocketType::ROUTER {
            return Err(ChatError::NotRouter);
        }
        match send_two_frames(&mut self.endpoint, id, message) {
            Ok(()) => Ok(()),
            Err(e) => Err(ChatError::Transport(e)),
        }
    }

    /// Writes `message`, behind a first frame that holds the topic where there
    /// is one, so that subscribers can filter on it.
    pub fn send_with_topic(&mut self, topic: Option<&str>, message: &str) -> (r: Result<
        (),
        ChatError,
    >)
        ensures
            final(self).kind() == old(self).kind(),
            final(self).calls() == old(self).calls().push(
                (SocketOp::Send(topic_frames(topic, message@)), r is Ok),
            ),
            r matches Err(e) ==> e is Transport,
    {
        let sent = match topic {
            Some(t) => send_two_frames(&mut self.endpoint, t, message),
            None => send_frame(&mut self.endpoint, message),
        };
        match sent {
            Ok(()) => Ok(()),
            Err(e) => Err(ChatError::Transport(e)),
        }
    }

    /// Reads one message and decodes each of its frames as text. A router's
    /// messages begin with the sender's identity. `Timeout` where nothing came
    /// in time.
    pub fn receive(&mut self) -> (r: Result<Vec<String>, ChatError>)
        ensures
            final(self).kind() == old(self).kind(),
            final(self).calls().len() == old(self).calls().len() + 1,
            final(self).calls().drop_last() == old(self).calls(),
            receive_recorded(final(self).calls().last(), r),
            r matches Ok(frames) ==> frames@.len() >= 1,
            r matches Err(e) ==> e is Timeout || e is Decode || e is Transport,
    {
        match receive_frames(&mut self.endpoint) {
            Ok(frames) => decode_frames(frames),
            Err(e) => Err(receive_failure(e)),
        }
    }
}

/// Whether every frame is valid UTF-8.
pub open spec fn all_text(frames: Seq<Seq<u8>>) -> bool {
    forall|i: int| 0 <= i < frames.len() ==> valid_utf8(#[trigger] frames[i])
}

/// Whether `texts` are the frames, each decoded from UTF-8.
pub open spec fn decodes_to(texts: Seq<String>, frames: Seq<Seq<u8>>) -> bool {
    texts.len() == frames.len() && forall|i: int|
        0 <= i < frames.len() ==> #[trigger] texts[i]@ == decode_utf8(frames[i])
}

/// Decodes each frame as text; `Decode` if any of them is not valid UTF-8.
pub fn decode_frames(frames: Vec<Vec<u8>>) -> (r: Result<Vec<String>, ChatError>)
    ensures
        r is Ok <==> all_text(frame_bytes(frames@)),
        r matches Err(e) ==> e is Decode,
        r matches Ok(texts) ==> decodes_to(texts@, frame_bytes(frames@)),
{
    let ghost input = frames@;
    let mut rest = frames;
    let mut texts: Vec<String> = Vec::new();
    while rest.len() > 0
        invariant
            input == frames@,
            texts@.len() + rest@.len() == input.len(),
            rest@ == input.subrange(texts@.len() as int, input.len() as int),
            forall|i: int| 0 <= i < texts@.len() ==> valid_utf8(#[trigger] input[i]@),
            forall|i: int| 0 <= i < texts@.len() ==> #[trigger] texts@[i]@ == decode_utf8(input[i]@),
        decreases rest.len(),
    {
        let ghost k = texts@.len();
        let frame = rest.remove(0);
        assert(frame == input[k as int]);
        match decode_text(frame) {
            Some(t) => texts.push(t),
            None => {
                assert(!valid_utf8(frame_bytes(input)[k as int]));
                return Err(ChatError::Decode);
            },
        }
        assert(rest@ =~= input.subrange(texts@.len() as int, input.len() as int));
    }
    assert(decodes_to(texts@, frame_bytes(input)));
    Ok(texts)
}

/// What became of one command, for the operator to see.
#[derive(Debug)]
pub enum ChatOutcome {
    /// A message came; these are its frames.
    Received(Vec<String>),
    /// Nothing came within the timeout: no news, and no failure.
    NothingYet,
    /// This text was handed to the transport.
    Sent(String),
    /// The command failed; the session stays usable.
    Failed(ChatError),
}

/// The outcome of a receive: a timeout is no news, every other failure is
/// reported.
pub fn report_receive(result: Result<Vec<String>, ChatError>) -> (r: ChatOutcome)
    ensures
        match result {
            Ok(frames) => r == ChatOutcome::Received(frames),
            Err(ChatError::Timeout) => r is NothingYet,
            Err(e) => r == ChatOutcome::Failed(e),
        },
{
    match result {
        Ok(frames) => ChatOutcome::Received(frames),
        Err(ChatError::Timeout) => ChatOutcome::NothingYet,
        Err(e) => ChatOutcome::Failed(e),
    }
}

/// The outcome of sending `message`.
pub fn report_send(message: String, result: Result<(), ChatError>) -> (r: ChatOutcome)
    ensures
        match result {
            Ok(()) => r == ChatOutcome::Sent(message),
            Err(e) => r == ChatOutcome::Failed(e),
        },
{
    match result {
        Ok(()) => ChatOutcome::Sent(message),
        Err(e) => ChatOutcome::Failed(e),
    }
}

/// Carries out one command of the prompt on the session: a receive, a send
/// of the text, or an addressed send of it. No outcome ends the session:
/// failures are returned for the operator to see.
pub fn execute_chat_command(chat: &mut Chat, command: ChatCommand) -> (r: ChatOutcome)
    ensures
        final(chat).kind() == old(chat).kind(),
        command is Receive ==> final(chat).calls().len() == old(chat).calls().len() + 1
            && final(chat).calls().drop_last() == old(chat).calls() && receive_reported(
            final(chat).calls().last(),
            r,
        ),
        command matches ChatCommand::Send(m) ==> final(chat).calls() == old(chat).calls().push(
            (SocketOp::Send(seq![m@]), r is Sent),
        ),
        command matches ChatCommand::Send(m) ==> (r == ChatOutcome::Sent(m) || (
        r matches ChatOutcome::Failed(e) && e is Transport)),
        old(chat).kind() == SocketType::ROUTER ==> (command matches ChatCommand::SendTo(id, m)
            ==> final(chat).calls() == old(chat).calls().push(
            (SocketOp::Send(seq![id@, m@]), r is Sent),
        )),
        old(chat).kind() == SocketType::ROUTER ==> (command matches ChatCommand::SendTo(id, m)
            ==> (r == ChatOutcome::Sent(m) || (r matches ChatOutcome::Failed(e) && e is Transport))),
        command is SendTo && old(chat).kind() != SocketType::ROUTER ==> final(chat).calls() == old(
            chat,
        ).calls() && r == ChatOutcome::Failed(ChatError::NotRouter),
{
    match command {
        ChatCommand::Receive => report_receive(chat.receive()),
        ChatCommand::Send(message) => {
            let sent = chat.send(message.as_str());
            report_send(message, sent)
        },
        ChatCommand::SendTo(id, message) => {
            let sent = chat.send_with_id(id.as_str(), message.as_str());
            report_send(message, sent)
        },
    }
}

} // verus!
