//! The TUN transport: the addresses of the two TUN devices, the hello that
//! opens the transport, and what each side does with a packet read from its
//! device.

use vstd::prelude::*;
use vstd::slice::{slice_subrange, slice_to_vec};

use crate::message::{Message, MessageModel, Transport};

verus! {

/// How a TUN device is set up.
#[derive(Debug, Clone, Copy, PartialEq, Eq)]
pub struct TunSettings {
    pub addr: [u8; 4],
    pub netmask: [u8; 4],
    pub mtu: u16,
}

/// The client's TUN device: 10.8.0.2/24, MTU 1400.
pub fn client_tun_settings() -> (s: TunSettings)
    ensures
        s.addr@ == seq![10u8, 8u8, 0u8, 2u8],
        s.netmask@ == seq![255u8, 255u8, 255u8, 0u8],
        s.mtu == 1400,
{
    let s = TunSettings { addr: [10, 8, 0, 2], netmask: [255, 255, 255, 0], mtu: 1400 };
    assert(s.addr@ =~= seq![10u8, 8u8, 0u8, 2u8]);
    assert(s.netmask@ =~= seq![255u8, 255u8, 255u8, 0u8]);
    s
}

/// The server's TUN device: 10.8.0.1/24, MTU 1400.
pub fn server_tun_settings() -> (s: TunSettings)
    ensures
        s.addr@ == seq![10u8, 8u8, 0u8, 1u8],
        s.netmask@ == seq![255u8, 255u8, 255u8, 0u8],
        s.mtu == 1400,
{
    let s = TunSettings { addr: [10, 8, 0, 1], netmask: [255, 255, 255, 0], mtu: 1400 };
    assert(s.addr@ =~= seq![10u8, 8u8, 0u8, 1u8]);
    assert(s.netmask@ =~= seq![255u8, 255u8, 255u8, 0u8]);
    s
}

/// The hello that opens the TUN transport: version 0.0.1, IP transport.
pub fn ip_transport_hello() -> (m: Message)
    ensures
        m@ == (MessageModel::Hello { version: seq![0u8, 0u8, 1u8], transport: Transport::IP }),
{
    let version: [u8; 3] = [0, 0, 1];
    assert(version@ =~= seq![0u8, 0u8, 1u8]);
    Message::Hello { version, transport: Transport::IP }
}

/// The packet that the client sends for `n` bytes read from its device:
/// exactly those bytes.
pub fn client_packet(buf: &[u8], n: usize) -> (p: Vec<u8>)
    requires
        n <= buf@.len(),
    ensures
        p@ == buf@.subrange(0, n as int),
{
    slice_to_vec(slice_subrange(buf, 0, n))
}

/// What the server's device gave on one read.
#[derive(Debug, Clone, Copy, PartialEq, Eq, Structural)]
pub enum TunRead {
    /// So many bytes were read.
    Bytes(usize),
    /// The read failed.
    Failed,
}

/// What the server does after a read from its device.
#[derive(Debug)]
pub enum RelayAction {
    /// Send this frame to the client.
    Send(Vec<u8>),
    /// Send nothing and read on.
    Skip,
    /// Stop relaying.
    Stop,
}

/// The server's step after a read from its device: a failed read stops the
/// relay, an empty read sends nothing, and otherwise the bytes read are sent
/// as one packet.
pub fn server_packet(buf: &[u8], read: TunRead) -> (a: RelayAction)
    requires
        read is Bytes ==> read->0 <= buf@.len(),
    ensures
        read is Failed ==> a is Stop,
        read == TunRead::Bytes(0) ==> a is Skip,
        read is Bytes && read->0 > 0 ==> (a matches RelayAction::Send(p) && p@ == buf@.subrange(
            0,
            read->0 as int,
        )),
{
    match read {
        TunRead::Bytes(n) => if n == 0 {
            RelayAction::Skip
        } else {
            RelayAction::Send(slice_to_vec(slice_subrange(buf, 0, n)))
        },
        TunRead::Failed => RelayAction::Stop,
    }
}

} // verus!
