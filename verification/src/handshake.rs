//! The server's side of a tunnel: accepting a client's hello, and deciding
//! where a proxied connection goes.

use vstd::prelude::*;
use vstd::string::*;

use crate::message::{DestinationType, Message, MessageModel, Transport};
use crate::text::{ipv4_string, ipv4_text, version_string, version_text};

verus! {

/// Why a handshake step was refused.
#[derive(Debug)]
pub enum HandshakeError {
    /// The client's first message was not a hello.
    ExpectedHello(Message),
    /// The first message after the hello was not a destination.
    ExpectedDestination(Message),
    /// The destination's address was empty.
    EmptyAddress,
    /// The server refused, with this reason.
    Refused(String),
    /// The server answered with neither a go-ahead nor a refusal.
    Unexpected(Message),
}

/// Whether `id` carries the version (4, random) and variant (RFC 4122) bits
/// of a random UUID, read as a big-endian `u128`.
pub open spec fn uuid_v4_bits(id: u128) -> bool {
    &&& (id >> 76u128) & 0xfu128 == 4u128
    &&& (id >> 62u128) & 0x3u128 == 2u128
}

/// Calls `uuid::Uuid::new_v4` and converts the identifier with
/// `Uuid::as_u128`. The bits are random; the contract states only the
/// version and variant bits, which `new_v4` always sets.
#[verifier::external_body]
fn new_client_id() -> (id: u128)
    ensures
        uuid_v4_bits(id),
{
    uuid::Uuid::new_v4().as_u128()
}

/// The outcome of a hello: the client's version text and transport, or none
/// for any other message.
pub open spec fn hello_outcome(m: MessageModel) -> Option<(Seq<char>, Transport)> {
    match m {
        MessageModel::Hello { version, transport } => Some((version_text(version), transport)),
        _ => None,
    }
}

/// A client that has said hello, with its stream.
pub struct Client<T> {
    id: u128,
    version: String,
    transport: Transport,
    client_stream: T,
}

impl<T> Client<T> {
    /// The identifier given to the client.
    pub closed spec fn id_of(&self) -> u128 {
        self.id
    }

    /// The client's version as text.
    pub closed spec fn version_of(&self) -> Seq<char> {
        self.version@
    }

    /// The transport that the client asked for.
    pub closed spec fn transport_of(&self) -> Transport {
        self.transport
    }

    /// The stream to the client.
    pub closed spec fn stream_of(&self) -> T {
        self.client_stream
    }

    /// Accepts a client whose first message is `msg`: it must be a hello.
    /// The client gets a fresh random identifier and keeps its version as
    /// `major.minor.patch`.
    pub fn try_from_handshake(msg: Message, stream: T) -> (r: Result<Self, HandshakeError>)
        ensures
            hello_outcome(msg@) is None ==> (r matches Err(HandshakeError::ExpectedHello(m))
                && m == msg),
            hello_outcome(msg@) matches Some((v, t)) ==> (r matches Ok(c) && c.version_of() == v
                && c.transport_of() == t && c.stream_of() == stream && uuid_v4_bits(c.id_of())),
    {
        match msg {
            Message::Hello { version, transport } => {
                let id = new_client_id();
                let version = version_string(version);
                Ok(Client { id, version, transport, client_stream: stream })
            },
            _ => Err(HandshakeError::ExpectedHello(msg)),
        }
    }

    /// The identifier given to the client.
    pub fn id(&self) -> (id: u128)
        ensures
            id == self.id_of(),
    {
        self.id
    }

    /// The client's version as text.
    pub fn version(&self) -> (v: &String)
        ensures
            v@ == self.version_of(),
    {
        &self.version
    }

    /// The transport that the client asked for.
    pub fn transport(&self) -> (t: Transport)
        ensures
            t == self.transport_of(),
    {
        self.transport
    }

    /// Gives up the client for its stream.
    pub fn into_stream(self) -> (s: T)
        ensures
            s == self.stream_of(),
    {
        self.client_stream
    }
}

/// Where a proxied connection goes: to an address as given, or to a domain
/// that must first be resolved.
#[derive(Debug)]
pub enum Socks5Plan {
    Connect { addr: String, port: u16 },
    Resolve { domain: String, port: u16 },
}

/// A plan over sequences.
pub enum PlanModel {
    NotDestination,
    EmptyAddress,
    Connect(Seq<char>, u16),
    Resolve(Seq<char>, u16),
}

/// The plan for the first message after the hello: it must be a
/// destination with a nonempty address; a domain is resolved first.
pub open spec fn plan_outcome(m: MessageModel) -> PlanModel {
    match m {
        MessageModel::Destination(t, addr, port) => if addr.len() == 0 {
            PlanModel::EmptyAddress
        } else if t == DestinationType::DOMAIN {
            PlanModel::Resolve(addr, port)
        } else {
            PlanModel::Connect(addr, port)
        },
        _ => PlanModel::NotDestination,
    }
}

/// Decides where a proxied connection goes from the first message after the
/// hello.
pub fn plan_socks5(msg: Message) -> (r: Result<Socks5Plan, HandshakeError>)
    ensures
        match plan_outcome(msg@) {
            PlanModel::NotDestination => r matches Err(HandshakeError::ExpectedDestination(m))
                && m == msg,
            PlanModel::EmptyAddress => r matches Err(HandshakeError::EmptyAddress),
            PlanModel::Connect(a, p) => r matches Ok(Socks5Plan::Connect { addr, port }) && addr@
                == a && port == p,
            PlanModel::Resolve(d, p) => r matches Ok(Socks5Plan::Resolve { domain, port })
                && domain@ == d && port == p,
        },
{
    match msg {
        Message::Destination(dtype, addr, port) => {
            if addr.as_str().is_empty() {
                return Err(HandshakeError::EmptyAddress);
            }
            match dtype {
                DestinationType::DOMAIN => Ok(Socks5Plan::Resolve { domain: addr, port }),
                DestinationType::IP => Ok(Socks5Plan::Connect { addr, port }),
            }
        },
        _ => Err(HandshakeError::ExpectedDestination(msg)),
    }
}

/// What the server does once a domain has been looked up.
#[derive(Debug)]
pub enum ResolveOutcome {
    /// Connect to the address found.
    Connect { addr: String, port: u16 },
    /// Send `reply` to the client and close the tunnel.
    Refuse { reply: Message, domain: String },
}

/// The reason given to a client when a domain has no address.
pub open spec fn no_records_text(domain: Seq<char>) -> Seq<char> {
    "no records found for: "@ + domain
}

/// Decides what to do with the first IPv4 address found for `domain`, if
/// there is one: connect to it, or refuse the client with a reason.
pub fn after_resolution(domain: String, port: u16, resolved: Option<[u8; 4]>) -> (r:
    ResolveOutcome)
    ensures
        resolved matches Some(a) ==> (r matches ResolveOutcome::Connect { addr, port: p }
            && addr@ == ipv4_text(a@) && p == port),
        resolved is None ==> (r matches ResolveOutcome::Refuse { reply, domain: d } && reply@
            == MessageModel::Error(no_records_text(domain@)) && d@ == domain@),
{
    match resolved {
        Some(a) => ResolveOutcome::Connect { addr: ipv4_string(a), port },
        None => {
            let mut reason = String::from_str("no records found for: ");
            reason.append(domain.as_str());
            ResolveOutcome::Refuse { reply: Message::Error(reason), domain }
        },
    }
}

} // verus!
