//! The client's SOCKS5 side: turning the target of a proxied connection into
//! the destination message sent through the tunnel.

use vstd::prelude::*;

use crate::message::{DestinationType, Message, MessageModel};

verus! {

/// The target of a SOCKS5 request: a domain and port, or an IP address (as
/// its text) and port.
#[derive(Debug)]
pub enum TargetAddr {
    Ip(String, u16),
    Domain(String, u16),
}

/// The destination message for a SOCKS5 target: the address kind follows
/// the target's, and address and port are kept.
pub fn target_addr_into_dest(ta: TargetAddr) -> (m: Message)
    ensures
        match ta {
            TargetAddr::Domain(d, p) => m@ == MessageModel::Destination(
                DestinationType::DOMAIN,
                d@,
                p,
            ),
            TargetAddr::Ip(a, p) => m@ == MessageModel::Destination(DestinationType::IP, a@, p),
        },
{
    match ta {
        TargetAddr::Domain(domain, port) => Message::Destination(
            DestinationType::DOMAIN,
            domain,
            port,
        ),
        TargetAddr::Ip(addr, port) => Message::Destination(DestinationType::IP, addr, port),
    }
}

} // verus!
