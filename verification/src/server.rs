//! The client's view of the server: its name, checked as a TLS server name,
//! and what the server's answer to a handshake means.

use std::sync::Arc;

use vstd::prelude::*;

use rustls_pki_types::{InvalidDnsNameError, ServerName};

use crate::handshake::HandshakeError;
use crate::message::{Message, MessageModel};

verus! {

/// A TLS server name: a DNS name or an IP address.
#[verifier::external_type_specification]
#[verifier::external_body]
pub struct ExServerName<'a>(ServerName<'a>);

/// The error of a name that is neither a DNS name nor an IP address.
#[verifier::external_type_specification]
#[verifier::external_body]
pub struct ExInvalidDnsNameError(InvalidDnsNameError);

/// What `ServerName::try_from` makes of `name`: the server name for a valid
/// DNS name, or else for an IP address, and none when it is neither.
pub uninterp spec fn server_name_for(name: Seq<char>) -> Option<ServerName<'static>>;

/// Calls `ServerName::try_from(String)`. Its result depends on the name
/// alone: it succeeds exactly when `server_name_for` gives a name, and then
/// returns that name. An empty name is never accepted (its DNS check refuses
/// an empty input, and no IP address is empty).
#[verifier::external_body]
fn server_name_try_from(name: String) -> (r: Result<ServerName<'static>, InvalidDnsNameError>)
    ensures
        r is Ok <==> server_name_for(name@) is Some,
        r matches Ok(n) ==> server_name_for(name@) == Some(n),
        name@.len() == 0 ==> r is Err,
{
    ServerName::try_from(name)
}

/// Why a server could not be set up.
#[derive(Debug, Clone, Copy, PartialEq, Eq, Structural)]
pub enum ServerError {
    /// The domain is no valid TLS server name.
    InvalidDnsName,
}

/// The server that the client tunnels to.
pub struct Server<C> {
    domain: String,
    port: u16,
    dns_name: ServerName<'static>,
    client_config: Arc<C>,
}

impl<C> Server<C> {
    /// The server's domain.
    pub closed spec fn domain_of(&self) -> Seq<char> {
        self.domain@
    }

    /// The server's port.
    pub closed spec fn port_of(&self) -> u16 {
        self.port
    }

    /// The server's TLS name.
    pub closed spec fn dns_name_of(&self) -> ServerName<'static> {
        self.dns_name
    }

    /// The TLS configuration of the client.
    pub closed spec fn config_of(&self) -> C {
        *self.client_config
    }

    /// A server at `domain` and `port`; the domain must be a valid TLS
    /// server name.
    pub fn new(domain: String, port: u16, client_config: C) -> (r: Result<Self, ServerError>)
        ensures
            r is Ok <==> server_name_for(domain@) is Some,
            domain@.len() == 0 ==> r is Err,
            r matches Ok(s) ==> s.domain_of() == domain@ && s.port_of() == port && s.config_of()
                == client_config && server_name_for(domain@) == Some(s.dns_name_of()),
            r matches Err(e) ==> e == ServerError::InvalidDnsName,
    {
        let checked = server_name_try_from(domain.clone());
        Self::from_checked_name(domain, port, client_config, checked)
    }

    /// A server at `domain` and `port`, given the outcome of checking the
    /// domain as a TLS server name: it is set up exactly when the check passed.
    pub fn from_checked_name(
        domain: String,
        port: u16,
        client_config: C,
        checked: Result<ServerName<'static>, InvalidDnsNameError>,
    ) -> (r: Result<Self, ServerError>)
        ensures
            r is Ok <==> checked is Ok,
            r matches Ok(s) ==> s.domain_of() == domain@ && s.port_of() == port && s.config_of()
                == client_config && checked == Ok::<ServerName<'static>, InvalidDnsNameError>(
                s.dns_name_of(),
            ),
            r matches Err(e) ==> e == ServerError::InvalidDnsName,
    {
        match checked {
            Ok(dns_name) => Ok(
                Server { dns_name, domain, port, client_config: Arc::new(client_config) },
            ),
            Err(_) => Err(ServerError::InvalidDnsName),
        }
    }

    /// The server's domain.
    pub fn domain(&self) -> (d: &String)
        ensures
            d@ == self.domain_of(),
    {
        &self.domain
    }

    /// The server's port.
    pub fn port(&self) -> (p: u16)
        ensures
            p == self.port_of(),
    {
        self.port
    }

    /// The server's TLS name.
    pub fn dns_name(&self) -> (n: &ServerName<'static>)
        ensures
            *n == self.dns_name_of(),
    {
        &self.dns_name
    }

    /// The TLS configuration of the client, shared.
    pub fn client_config(&self) -> (c: &Arc<C>)
        ensures
            **c == self.config_of(),
    {
        &self.client_config
    }
}

/// What the server's answer to a handshake means.
pub enum ReplyModel {
    Accepted,
    Refused(Seq<char>),
    Unexpected,
}

/// A go-ahead accepts, an error refuses with its reason, and anything else
/// is unexpected.
pub open spec fn reply_outcome(m: MessageModel) -> ReplyModel {
    match m {
        MessageModel::Start => ReplyModel::Accepted,
        MessageModel::Error(e) => ReplyModel::Refused(e),
        _ => ReplyModel::Unexpected,
    }
}

/// Judges the server's answer to the handshake.
pub fn handshake_reply(msg: Message) -> (r: Result<(), HandshakeError>)
    ensures
        match reply_outcome(msg@) {
            ReplyModel::Accepted => r is Ok,
            ReplyModel::Refused(e) => r matches Err(HandshakeError::Refused(s)) && s@ == e,
            ReplyModel::Unexpected => r matches Err(HandshakeError::Unexpected(m)) && m == msg,
        },
{
    match msg {
        Message::Start => Ok(()),
        Message::Error(e) => Err(HandshakeError::Refused(e)),
        m => Err(HandshakeError::Unexpected(m)),
    }
}

} // verus!
