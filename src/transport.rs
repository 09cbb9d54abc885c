//! What this crate takes from the ZeroMQ bindings, and what it assumes of it.
//!
//! An `Endpoint` owns one ZeroMQ socket together with a record of the calls
//! made on it: each operation with the arguments it was handed, in order, and
//! whether the library reported success. Only the functions of this module
//! that make a call extend the record, so what the rest of the crate states of
//! the record is what it handed to the library.

use crate::chat::ChatError;
use crate::socket::SocketType;
use vstd::prelude::*;
use vstd::utf8::{decode_utf8, valid_utf8};

verus! {

/// zmq::Context, the bindings' handle on the library's I/O threads; opaque.
#[verifier::external_type_specification]
#[verifier::external_body]
pub struct ExContext(zmq::Context);

/// zmq::Socket, one endpoint of the library; opaque.
#[verifier::external_type_specification]
#[verifier::external_body]
pub struct ExSocket(zmq::Socket);

/// zmq::Error, the error numbers the library reports; opaque.
#[verifier::external_type_specification]
#[verifier::external_body]
pub struct ExError(zmq::Error);

/// Relies on zmq::Context::new, which makes a fresh context.
pub assume_specification[ zmq::Context::new ]() -> zmq::Context;

/// One operation handed to the transport, with its arguments.
pub enum SocketOp {
    /// A socket of this pattern was made.
    Open(SocketType),
    /// The routing identity was set to these characters.
    SetIdentity(Seq<char>),
    /// A subscription to this prefix was added.
    Subscribe(Seq<char>),
    /// Receives were told to wait at most this many milliseconds.
    SetReceiveTimeout(int),
    /// The socket was bound to this address.
    Bind(Seq<char>),
    /// The socket was connected to this address.
    Connect(Seq<char>),
    /// One message of these frames, in this order, was sent.
    Send(Seq<Seq<char>>),
    /// One message was asked for, and these frames came back (none where the
    /// call failed).
    Receive(Seq<Seq<u8>>),
}

/// The bytes of each frame.
pub open spec fn frame_bytes(frames: Seq<Vec<u8>>) -> Seq<Seq<u8>> {
    frames.map_values(|f: Vec<u8>| f@)
}

/// The frames a receive got: those of the message, or none where it failed.
pub open spec fn received_bytes(r: Result<Vec<Vec<u8>>, zmq::Error>) -> Seq<Seq<u8>> {
    match r {
        Ok(frames) => frame_bytes(frames@),
        Err(_) => Seq::empty(),
    }
}

/// A ZeroMQ socket and the record of the calls made on it.
pub struct Endpoint {
    socket: zmq::Socket,
    calls: Ghost<Seq<(SocketOp, bool)>>,
}

impl Endpoint {
    /// The calls made on this socket, oldest first, each with whether it
    /// succeeded.
    pub closed spec fn calls(&self) -> Seq<(SocketOp, bool)> {
        self.calls@
    }
}

/// Relies on zmq::Context::socket to make a socket of the ZeroMQ kind that
/// bears the same name as `kind`.
#[verifier::external_body]
pub(crate) fn open_endpoint(ctx: &zmq::Context, kind: SocketType) -> (r: Result<Endpoint, zmq::Error>)
    ensures
        r matches Ok(e) ==> e.calls() == seq![(SocketOp::Open(kind), true)],
{
    let socket = ctx.socket(
        match kind {
            SocketType::PUB => zmq::PUB,
            SocketType::SUB => zmq::SUB,
            SocketType::REQ => zmq::REQ,
            SocketType::REP => zmq::REP,
            SocketType::PUSH => zmq::PUSH,
            SocketType::PULL => zmq::PULL,
            SocketType::PAIR => zmq::PAIR,
            SocketType::ROUTER => zmq::ROUTER,
            SocketType::DEALER => zmq::DEALER,
        },
    )?;
    Ok(Endpoint { socket, calls: Ghost(seq![(SocketOp::Open(kind), true)]) })
}

/// Relies on zmq::Socket::set_identity to set the routing identity to the
/// bytes of `id`.
#[verifier::external_body]
pub(crate) fn set_identity(ep: &mut Endpoint, id: &str) -> (r: Result<(), zmq::Error>)
    ensures
        final(ep).calls() == old(ep).calls().push((SocketOp::SetIdentity(id@), r is Ok)),
{
    ep.socket.set_identity(id.as_bytes())
}

/// Relies on zmq::Socket::set_subscribe to add the bytes of `prefix` as a
/// subscription.
#[verifier::external_body]
pub(crate) fn subscribe(ep: &mut Endpoint, prefix: &str) -> (r: Result<(), zmq::Error>)
    ensures
        final(ep).calls() == old(ep).calls().push((SocketOp::Subscribe(prefix@), r is Ok)),
{
    ep.socket.set_subscribe(prefix.as_bytes())
}

/// Relies on zmq::Socket::set_rcvtimeo to bound how long a receive waits.
#[verifier::external_body]
pub(crate) fn set_receive_timeout(ep: &mut Endpoint, ms: i32) -> (r: Result<(), zmq::Error>)
    ensures
        final(ep).calls() == old(ep).calls().push((SocketOp::SetReceiveTimeout(ms as int), r is Ok)),
{
    ep.socket.set_rcvtimeo(ms)
}

/// Relies on zmq::Socket::bind, which hands the address to the library as a
/// C string and so panics on an interior NUL character.
#[verifier::external_body]
pub(crate) fn bind(ep: &mut Endpoint, address: &str) -> (r: Result<(), zmq::Error>)
    requires
        !address@.contains('\0'),
    ensures
        final(ep).calls() == old(ep).calls().push((SocketOp::Bind(address@), r is Ok)),
{
    ep.socket.bind(address)
}

/// Relies on zmq::Socket::connect, which hands the address to the library as
/// a C string and so panics on an interior NUL character.
#[verifier::external_body]
pub(crate) fn connect(ep: &mut Endpoint, address: &str) -> (r: Result<(), zmq::Error>)
    requires
        !address@.contains('\0'),
    ensures
        final(ep).calls() == old(ep).calls().push((SocketOp::Connect(address@), r is Ok)),
{
    ep.socket.connect(address)
}

/// Relies on zmq::Socket::send to write `message` as a message of one frame.
#[verifier::external_body]
pub(crate) fn send_frame(ep: &mut Endpoint, message: &str) -> (r: Result<(), zmq::Error>)
    ensures
        final(ep).calls() == old(ep).calls().push((SocketOp::Send(seq![message@]), r is Ok)),
{
    ep.socket.send(message, 0)
}

/// Relies on zmq::Socket::send_multipart to write one message of two frames,
/// `first` then `second`.
#[verifier::external_body]
pub(crate) fn send_two_frames(ep: &mut Endpoint, first: &str, second: &str) -> (r: Result<
    (),
    zmq::Error,
>)
    ensures
        final(ep).calls() == old(ep).calls().push(
            (SocketOp::Send(seq![first@, second@]), r is Ok),
        ),
{
    ep.socket.send_multipart([first, second], 0)
}

/// Relies on zmq::Socket::recv_multipart, which reads every frame of one
/// message, and always at least one.
#[verifier::external_body]
pub(crate) fn receive_frames(ep: &mut Endpoint) -> (r: Result<Vec<Vec<u8>>, zmq::Error>)
    ensures
        final(ep).calls() == old(ep).calls().push((SocketOp::Receive(received_bytes(r)), r is Ok)),
        r matches Ok(frames) ==> frames@.len() >= 1,
{
    ep.socket.recv_multipart(0)
}

/// Relies on zmq::Error::EAGAIN being what a receive reports when its timeout
/// runs out with no message; every other error is kept as it came.
#[verifier::external_body]
pub(crate) fn receive_failure(e: zmq::Error) -> (r: ChatError)
    ensures
        r is Timeout || r == ChatError::Transport(e),
{
    match e {
        zmq::Error::EAGAIN => ChatError::Timeout,
        other => ChatError::Transport(other),
    }
}

/// Relies on String::from_utf8, which accepts exactly the valid UTF-8 byte
/// sequences and decodes them.
#[verifier::external_body]
pub(crate) fn decode_text(bytes: Vec<u8>) -> (r: Option<String>)
    ensures
        r is Some <==> valid_utf8(bytes@),
        r matches Some(t) ==> t@ == decode_utf8(bytes@),
{
    String::from_utf8(bytes).ok()
}

} // verus!
