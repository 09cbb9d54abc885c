//! How one socket endpoint is described: its pattern, its address and whether
//! it binds or connects.

use crate::chat::ChatError;
use crate::text::{text_contains, text_equals};
use crate::transport::{bind, connect, open_endpoint, set_identity, subscribe, Endpoint, SocketOp};
use crate::validation::{is_valid_address, valid_address};
use vstd::prelude::*;

verus! {

/// Whether an endpoint is the stable bind point or a transient connector.
#[derive(Clone, Copy, Debug, PartialEq, Eq, Structural)]
pub enum AssociationType {
    Bind,
    Connect,
}

impl Default for AssociationType {
    fn default() -> (r: Self)
        ensures
            r == AssociationType::Bind,
    {
        AssociationType::Bind
    }
}

/// The messaging pattern a socket takes part in.
#[allow(non_camel_case_types)]
#[derive(Clone, Copy, Debug, PartialEq, Eq, Structural)]
pub enum SocketType {
    PUB,
    SUB,
    REQ,
    REP,
    PUSH,
    PULL,
    PAIR,
    ROUTER,
    DEALER,
}

impl Default for SocketType {
    fn default() -> (r: Self)
        ensures
            r == SocketType::PAIR,
    {
        SocketType::PAIR
    }
}

/// The side a socket of each pattern takes when the caller does not choose:
/// the stable end of a topology binds, its transient peers connect.
pub open spec fn default_association_of(t: SocketType) -> AssociationType {
    match t {
        SocketType::PUB => AssociationType::Bind,
        SocketType::SUB => AssociationType::Connect,
        SocketType::REQ => AssociationType::Connect,
        SocketType::REP => AssociationType::Bind,
        SocketType::PUSH => AssociationType::Connect,
        SocketType::PULL => AssociationType::Bind,
        SocketType::PAIR => AssociationType::Bind,
        SocketType::ROUTER => AssociationType::Bind,
        SocketType::DEALER => AssociationType::Bind,
    }
}

impl SocketType {
    /// The side a socket of this pattern takes unless told otherwise.
    pub fn default_association(&self) -> (r: AssociationType)
        ensures
            r == default_association_of(*self),
    {
        match self {
            Self::PUB => AssociationType::Bind,
            Self::SUB => AssociationType::Connect,
            Self::REQ => AssociationType::Connect,
            Self::REP => AssociationType::Bind,
            Self::PUSH => AssociationType::Connect,
            Self::PULL => AssociationType::Bind,
            Self::PAIR => AssociationType::Bind,
            Self::ROUTER => AssociationType::Bind,
            Self::DEALER => AssociationType::Bind,
        }
    }
}

/// The name of a pattern, as the text the library hands out.
pub open spec fn name_str(t: SocketType) -> &'static str {
    match t {
        SocketType::PUB => "PUB",
        SocketType::SUB => "SUB",
        SocketType::REQ => "REQ",
        SocketType::REP => "REP",
        SocketType::PUSH => "PUSH",
        SocketType::PULL => "PULL",
        SocketType::PAIR => "PAIR",
        SocketType::ROUTER => "ROUTER",
        SocketType::DEALER => "DEALER",
    }
}

/// The name under which a pattern is written on the command line and in
/// configuration documents.
pub open spec fn name_of(t: SocketType) -> Seq<char> {
    name_str(t)@
}

/// The pattern of the given name; a name that is no pattern's gives `PAIR`.
pub open spec fn socket_type_named(s: Seq<char>) -> SocketType {
    if s == "PUB"@ {
        SocketType::PUB
    } else if s == "SUB"@ {
        SocketType::SUB
    } else if s == "REQ"@ {
        SocketType::REQ
    } else if s == "REP"@ {
        SocketType::REP
    } else if s == "PUSH"@ {
        SocketType::PUSH
    } else if s == "PULL"@ {
        SocketType::PULL
    } else if s == "ROUTER"@ {
        SocketType::ROUTER
    } else if s == "DEALER"@ {
        SocketType::DEALER
    } else {
        SocketType::PAIR
    }
}

impl SocketType {
    /// The pattern's name.
    pub fn name(&self) -> (r: &'static str)
        ensures
            r == name_str(*self),
            r@ == name_of(*self),
    {
        match self {
            Self::PUB => "PUB",
            Self::SUB => "SUB",
            Self::REQ => "REQ",
            Self::REP => "REP",
            Self::PUSH => "PUSH",
            Self::PULL => "PULL",
            Self::PAIR => "PAIR",
            Self::ROUTER => "ROUTER",
            Self::DEALER => "DEALER",
        }
    }
}

impl From<&SocketType> for &'static str {
    fn from(t: &SocketType) -> (r: Self)
        ensures
            r == name_str(*t),
    {
        t.name()
    }
}

impl vstd::std_specs::convert::FromSpecImpl<&SocketType> for &'static str {
    open spec fn obeys_from_spec() -> bool {
        true
    }

    open spec fn from_spec(v: &SocketType) -> &'static str {
        name_str(*v)
    }
}

impl From<SocketType> for &'static str {
    fn from(t: SocketType) -> (r: Self)
        ensures
            r == name_str(t),
    {
        t.name()
    }
}

impl vstd::std_specs::convert::FromSpecImpl<SocketType> for &'static str {
    open spec fn obeys_from_spec() -> bool {
        true
    }

    open spec fn from_spec(v: SocketType) -> &'static str {
        name_str(v)
    }
}

impl From<&str> for SocketType {
    fn from(s: &str) -> (r: Self)
        ensures
            r == socket_type_named(s@),
    {
        if text_equals(s, "PUB") {
            SocketType::PUB
        } else if text_equals(s, "SUB") {
            SocketType::SUB
        } else if text_equals(s, "REQ") {
            SocketType::REQ
        } else if text_equals(s, "REP") {
            SocketType::REP
        } else if text_equals(s, "PUSH") {
            SocketType::PUSH
        } else if text_equals(s, "PULL") {
            SocketType::PULL
        } else if text_equals(s, "ROUTER") {
            SocketType::ROUTER
        } else if text_equals(s, "DEALER") {
            SocketType::DEALER
        } else {
            SocketType::PAIR
        }
    }
}

impl vstd::std_specs::convert::FromSpecImpl<&str> for SocketType {
    open spec fn obeys_from_spec() -> bool {
        true
    }

    open spec fn from_spec(v: &str) -> SocketType {
        socket_type_named(v@)
    }
}

/// Reading a pattern's name gives the pattern back.
pub proof fn lemma_name_round_trip(t: SocketType)
    ensures
        socket_type_named(name_of(t)) == t,
{
    reveal_strlit("PUB");
    reveal_strlit("SUB");
    reveal_strlit("REQ");
    reveal_strlit("REP");
    reveal_strlit("PUSH");
    reveal_strlit("PULL");
    reveal_strlit("PAIR");
    reveal_strlit("ROUTER");
    reveal_strlit("DEALER");
    // Each name differs from every other in its length or in one of its
    // first three characters; pointing the solver at those tells them apart.
    let n = name_of(t);
    assert(n != "PUB"@ ==> n.len() != 3 || n[0] != 'P' || n[1] != 'U');
    assert(n != "SUB"@ ==> n.len() != 3 || n[0] != 'S');
    assert(n != "REQ"@ ==> n.len() != 3 || n[0] != 'R' || n[2] != 'Q');
    assert(n != "REP"@ ==> n.len() != 3 || n[0] != 'R' || n[2] != 'P');
    assert(n != "PUSH"@ ==> n.len() != 4 || n[0] != 'P' || n[2] != 'S');
    assert(n != "PULL"@ ==> n.len() != 4 || n[0] != 'P' || n[2] != 'L');
    assert(n != "ROUTER"@ ==> n.len() != 6 || n[0] != 'R');
    assert(n != "DEALER"@ ==> n.len() != 6 || n[0] != 'D');
}

/// The side an endpoint takes: the caller's explicit choice where there is
/// one, the pattern's default otherwise.
pub open spec fn association_for(t: SocketType, explicit: Option<AssociationType>) -> AssociationType {
    match explicit {
        Some(a) => a,
        None => default_association_of(t),
    }
}

impl SocketType {
    /// The side to take: `explicit` where given, else the default.
    pub fn resolve_association(&self, explicit: Option<AssociationType>) -> (r: AssociationType)
        ensures
            r == association_for(*self, explicit),
    {
        match explicit {
            Some(a) => a,
            None => self.default_association(),
        }
    }
}

/// An explicit choice of side always wins over the pattern's default, and
/// without one every pattern takes the side its default table gives.
pub proof fn lemma_explicit_association_overrides(t: SocketType, a: AssociationType)
    ensures
        association_for(t, Some(a)) == a,
        association_for(t, None) == default_association_of(t),
{
}

/// The explicit side chosen by a pair of bind / connect switches; asking for
/// both is a conflict, refused before any socket is made.
pub fn explicit_association(bind: bool, connect: bool) -> (r: Result<
    Option<AssociationType>,
    ChatError,
>)
    ensures
        bind && connect <==> r matches Err(ChatError::ConflictingAssociation),
        r matches Err(e) ==> e is ConflictingAssociation,
        bind && !connect ==> r == Ok::<_, ChatError>(Some(AssociationType::Bind)),
        !bind && connect ==> r == Ok::<_, ChatError>(Some(AssociationType::Connect)),
        !bind && !connect ==> r == Ok::<_, ChatError>(None::<AssociationType>),
{
    if bind && connect {
        Err(ChatError::ConflictingAssociation)
    } else if bind {
        Ok(Some(AssociationType::Bind))
    } else if connect {
        Ok(Some(AssociationType::Connect))
    } else {
        Ok(None)
    }
}

/// How to build one socket endpoint. Built once, then read by the factory.
///
/// The identity matters to router and dealer sockets only, the topic to
/// subscribers only; both are accepted for every pattern.
#[derive(Clone, Copy, Debug, PartialEq, Eq)]
pub struct SocketParameters<'a> {
    pub address: &'a str,
    pub socket_type: SocketType,
    pub association_type: AssociationType,
    pub socket_id: Option<&'a str>,
    pub topic: Option<&'a str>,
}

impl<'a> SocketParameters<'a> {
    /// Parameters whose side is `explicit` where given, else the pattern's
    /// default.
    pub fn new(
        address: &'a str,
        socket_type: SocketType,
        explicit: Option<AssociationType>,
        socket_id: Option<&'a str>,
        topic: Option<&'a str>,
    ) -> (r: Self)
        ensures
            r.address == address,
            r.socket_type == socket_type,
            r.association_type == association_for(socket_type, explicit),
            r.socket_id == socket_id,
            r.topic == topic,
    {
        SocketParameters {
            address,
            socket_type,
            association_type: socket_type.resolve_association(explicit),
            socket_id,
            topic,
        }
    }
}

impl<'a> Default for SocketParameters<'a> {
    fn default() -> (r: Self)
        ensures
            r.address@ == Seq::<char>::empty(),
            r.socket_type == SocketType::PAIR,
            r.association_type == AssociationType::Bind,
            r.socket_id is None,
            r.topic is None,
    {
        let address = "";
        proof {
            reveal_strlit("");
        }
        SocketParameters {
            address,
            socket_type: SocketType::PAIR,
            association_type: AssociationType::Bind,
            socket_id: None,
            topic: None,
        }
    }
}

/// An address the factory hands to the transport: of a known scheme, and
/// free of NUL characters, which no endpoint can hold.
pub open spec fn usable_address(s: Seq<char>) -> bool {
    valid_address(s) && !s.contains('\0')
}

/// The address operation that `parameters` ask for: bind or connect.
pub open spec fn association_op(parameters: SocketParameters) -> SocketOp {
    match parameters.association_type {
        AssociationType::Bind => SocketOp::Bind(parameters.address@),
        AssociationType::Connect => SocketOp::Connect(parameters.address@),
    }
}

/// The calls that set a socket up as `parameters` describe: make it of the
/// pattern; set the identity where one is given; for a subscriber, subscribe
/// to the topic, or to everything (the empty prefix) where none is given;
/// then bind or connect. A topic on any other pattern is ignored.
pub open spec fn setup_ops(parameters: SocketParameters) -> Seq<SocketOp> {
    let opened = seq![SocketOp::Open(parameters.socket_type)];
    let identified = match parameters.socket_id {
        Some(id) => opened.push(SocketOp::SetIdentity(id@)),
        None => opened,
    };
    let filtered = if parameters.socket_type == SocketType::SUB {
        identified.push(
            SocketOp::Subscribe(
                match parameters.topic {
                    Some(t) => t@,
                    None => Seq::empty(),
                },
            ),
        )
    } else {
        identified
    };
    filtered.push(association_op(parameters))
}

/// Each of `ops`, recorded as a call that succeeded.
pub open spec fn all_succeeded(ops: Seq<SocketOp>) -> Seq<(SocketOp, bool)> {
    ops.map_values(|op: SocketOp| (op, true))
}

/// Makes a socket as `parameters` describe it. The identity and a
/// subscriber's filter are set before the socket binds or connects, since the
/// transport reads both at that moment.
///
/// An address of no known scheme is refused before anything is made. The
/// first call the transport refuses ends the setup, once, with its error.
pub fn create_socket(ctx: &zmq::Context, parameters: &SocketParameters) -> (r: Result<
    Endpoint,
    ChatError,
>)
    ensures
        r matches Err(ChatError::InvalidAddress) <==> !usable_address(parameters.address@),
        r matches Err(e) ==> e is InvalidAddress || e is Transport,
        r matches Ok(ep) ==> ep.calls() == all_succeeded(setup_ops(*parameters)),
{
    let address = parameters.address;
    if !is_valid_address(address) || text_contains(address, '\0') {
        return Err(ChatError::InvalidAddress);
    }
    let mut ep = match open_endpoint(ctx, parameters.socket_type) {
        Ok(ep) => ep,
        Err(e) => return Err(ChatError::Transport(e)),
    };
    let ghost mut done: Seq<SocketOp> = seq![SocketOp::Open(parameters.socket_type)];
    assert(ep.calls() =~= all_succeeded(done));
    if let Some(id) = parameters.socket_id {
        if let Err(e) = set_identity(&mut ep, id) {
            return Err(ChatError::Transport(e));
        }
        proof {
            done = done.push(SocketOp::SetIdentity(id@));
        }
        assert(ep.calls() =~= all_succeeded(done));
    }
    if parameters.socket_type == SocketType::SUB {
        let filter = match parameters.topic {
            Some(t) => t,
            None => "",
        };
        proof {
            reveal_strlit("");
            if parameters.topic is None {
                assert(filter@ =~= Seq::<char>::empty());
            }
        }
        if let Err(e) = subscribe(&mut ep, filter) {
            return Err(ChatError::Transport(e));
        }
        proof {
            done = done.push(SocketOp::Subscribe(filter@));
        }
        assert(ep.calls() =~= all_succeeded(done));
    }
    let associated = match parameters.association_type {
        AssociationType::Connect => connect(&mut ep, address),
        AssociationType::Bind => bind(&mut ep, address),
    };
    if let Err(e) = associated {
        return Err(ChatError::Transport(e));
    }
    proof {
        done = done.push(association_op(*parameters));
    }
    assert(done =~= setup_ops(*parameters));
    assert(ep.calls() =~= all_succeeded(done));
    Ok(ep)
}

} // verus!
