//! Laws that tie the client's and the server's sides of the handshake
//! together.

use vstd::prelude::*;

use crate::handshake::{hello_outcome, no_records_text, plan_outcome, PlanModel};
use crate::message::{DestinationType, MessageModel, Transport};
use crate::server::{reply_outcome, ReplyModel};
use crate::text::{all_digits, lemma_version_text_reads_back, parse_u8_spec};

verus! {

/// The hello that opens the TUN transport is accepted by the server, which
/// records the client's version as `0.0.1` and the IP transport.
pub proof fn lemma_ip_hello_accepted()
    ensures
        hello_outcome(MessageModel::Hello { version: seq![0u8, 0u8, 1u8], transport: Transport::IP })
            == Some((seq!['0', '.', '0', '.', '1'], Transport::IP)),
{
    let v = crate::text::version_text(seq![0u8, 0u8, 1u8]);
    assert(v =~= seq!['0', '.', '0', '.', '1']);
}

/// The server's answers are understood by the client: the go-ahead accepts
/// the handshake, and the refusal sent for a domain without addresses
/// refuses it with the same reason.
pub proof fn lemma_server_replies_understood(domain: Seq<char>)
    ensures
        reply_outcome(MessageModel::Start) == ReplyModel::Accepted,
        reply_outcome(MessageModel::Error(no_records_text(domain))) == ReplyModel::Refused(
            no_records_text(domain),
        ),
{
}

/// The destination that the client sends for a SOCKS5 target is planned by
/// the server as that target: a domain is resolved, an IP address is
/// connected to, each at the same port; an empty address is refused.
pub proof fn lemma_destination_planned(addr: Seq<char>, port: u16)
    ensures
        addr.len() > 0 ==> plan_outcome(MessageModel::Destination(DestinationType::DOMAIN, addr, port))
            == PlanModel::Resolve(addr, port),
        addr.len() > 0 ==> plan_outcome(MessageModel::Destination(DestinationType::IP, addr, port))
            == PlanModel::Connect(addr, port),
        addr.len() == 0 ==> plan_outcome(MessageModel::Destination(DestinationType::DOMAIN, addr, port))
            == PlanModel::EmptyAddress,
        addr.len() == 0 ==> plan_outcome(MessageModel::Destination(DestinationType::IP, addr, port))
            == PlanModel::EmptyAddress,
{
}

/// Accepting a hello keeps what the client said: the transport it asked
/// for, and a version text whose three dotted parts parse as its version.
pub proof fn lemma_hello_kept(version: Seq<u8>, transport: Transport)
    requires
        version.len() == 3,
    ensures
        hello_outcome(MessageModel::Hello { version, transport }) matches Some((text, t)) && t
            == transport && exists|p0: Seq<char>, p1: Seq<char>, p2: Seq<char>|
            {
                &&& text == p0 + seq!['.'] + p1 + seq!['.'] + p2
                &&& all_digits(p0) && all_digits(p1) && all_digits(p2)
                &&& parse_u8_spec(p0) == Some(version[0]) && parse_u8_spec(p1) == Some(version[1])
                &&& parse_u8_spec(p2) == Some(version[2])
            },
{
    lemma_version_text_reads_back(version);
}

} // verus!
