use vstd::prelude::*;

use bt_hci::{ControllerToHostPacket, FromHciBytes, FromHciBytesError, PacketKind};

use crate::command::HCI_COMMAND_INDICATOR;
use crate::packet::{copied_to, stored_packet, BT_HCI_MTU};
use crate::error::{error_of_hci_bytes, Error, ErrorKind, HciBytesError};

verus! {

#[verifier::external_type_specification]
#[verifier::external_body]
pub struct ExControllerToHostPacket<'a>(ControllerToHostPacket<'a>);

/// Kind of an HCI packet, named by the packet type byte that opens it.
#[derive(Clone, Copy, Debug, PartialEq, Eq, Structural)]
pub enum HciPacketKind {
    /// Command, type byte 1.
    Cmd,
    /// ACL data, type byte 2.
    AclData,
    /// Synchronous data, type byte 3.
    SyncData,
    /// Event, type byte 4.
    Event,
    /// Isochronous data, type byte 5.
    IsoData,
}

/// Outcome of reading a packet type byte.
pub type KindParse = Result<HciPacketKind, HciBytesError>;

/// Outcome of reading a packet from the controller: the packet and the bytes
/// after it.
pub type PacketParse<'a> = Result<(ControllerToHostPacket<'a>, &'a [u8]), HciBytesError>;

/// The packet kind that a packet type byte names, if any.
pub open spec fn packet_kind_of(b: u8) -> Option<HciPacketKind> {
    if b == 1 {
        Some(HciPacketKind::Cmd)
    } else if b == 2 {
        Some(HciPacketKind::AclData)
    } else if b == 3 {
        Some(HciPacketKind::SyncData)
    } else if b == 4 {
        Some(HciPacketKind::Event)
    } else if b == 5 {
        Some(HciPacketKind::IsoData)
    } else {
        None
    }
}

/// What `bt_hci::ControllerToHostPacket::from_hci_bytes_with_kind` makes of
/// `data` read as a packet of kind `kind`: the packet and the bytes after it,
/// or the reason it is not one.
pub uninterp spec fn controller_packet_parse(kind: HciPacketKind, data: Seq<u8>) -> Result<(ControllerToHostPacket<'static>, Seq<u8>), HciBytesError>;

/// For an ACL, synchronous or event packet at the front of `data`: the bytes
/// after it, when its header is complete and the body length the header
/// announces is there; `None` otherwise, and for the other kinds. An ACL
/// header is a two-byte handle and a two-byte little endian body length, a
/// synchronous header a two-byte handle and a one-byte body length, an event
/// header an event code and a one-byte parameter length; the bytes after an
/// event are never handed back.
pub open spec fn framed_rest(kind: HciPacketKind, data: Seq<u8>) -> Option<Seq<u8>> {
    match kind {
        HciPacketKind::AclData => if data.len() >= 4 && data.len() >= 4 + data[2] + 256 * data[3] {
            Some(data.skip(4 + data[2] + 256 * data[3]))
        } else {
            None
        },
        HciPacketKind::SyncData => if data.len() >= 3 && data.len() >= 3 + data[2] {
            Some(data.skip(3 + data[2]))
        } else {
            None
        },
        HciPacketKind::Event => if data.len() >= 2 && data.len() >= 2 + data[1] {
            Some(Seq::empty())
        } else {
            None
        },
        _ => None,
    }
}

/// The kinds whose outcome `framed_rest` gives.
pub open spec fn is_framed_kind(kind: HciPacketKind) -> bool {
    kind == HciPacketKind::AclData || kind == HciPacketKind::SyncData || kind == HciPacketKind::Event
}

/// Calls `bt_hci::PacketKind::from_hci_bytes_complete`. Trusted to read the
/// input as exactly one packet type byte: an empty input is too short, an
/// unknown type byte is an invalid value, and bytes after a known type byte
/// make the input too long.
#[verifier::external_body]
fn packet_kind_from_hci_bytes_complete(data: &[u8]) -> (r: KindParse)
    ensures
        data@.len() == 0 ==> r is Err && r->Err_0 == HciBytesError::InvalidSize,
        data@.len() > 0 && packet_kind_of(data@[0]) is None ==> r is Err && r->Err_0 == HciBytesError::InvalidValue,
        data@.len() > 1 && packet_kind_of(data@[0]) is Some ==> r is Err && r->Err_0 == HciBytesError::InvalidSize,
        data@.len() == 1 && packet_kind_of(data@[0]) is Some ==> r is Ok && r->Ok_0 == packet_kind_of(data@[0])->0,
{
    match PacketKind::from_hci_bytes_complete(data) {
        Ok(PacketKind::Cmd) => Ok(HciPacketKind::Cmd),
        Ok(PacketKind::AclData) => Ok(HciPacketKind::AclData),
        Ok(PacketKind::SyncData) => Ok(HciPacketKind::SyncData),
        Ok(PacketKind::Event) => Ok(HciPacketKind::Event),
        Ok(PacketKind::IsoData) => Ok(HciPacketKind::IsoData),
        Err(FromHciBytesError::InvalidSize) => Err(HciBytesError::InvalidSize),
        Err(FromHciBytesError::InvalidValue) => Err(HciBytesError::InvalidValue),
    }
}

/// Calls `bt_hci::ControllerToHostPacket::from_hci_bytes_with_kind`. Trusted
/// to give what `controller_packet_parse` names; to refuse a command, which
/// never travels from the controller to the host, as an invalid value; and,
/// for an ACL, synchronous or event packet, to succeed exactly when its
/// header and announced body are there, handing back the bytes `framed_rest`
/// gives, and to refuse a short one as too small. Of an isochronous packet
/// only the name speaks.
#[verifier::external_body]
fn controller_packet_from_hci_bytes_with_kind<'a>(kind: HciPacketKind, data: &'a [u8]) -> (r:
    PacketParse<'a>)
    ensures
        r is Ok <==> controller_packet_parse(kind, data@) is Ok,
        r is Ok ==> controller_packet_parse(kind, data@)->Ok_0.0 == r->Ok_0.0,
        r is Ok ==> controller_packet_parse(kind, data@)->Ok_0.1 == r->Ok_0.1@,
        r is Err ==> controller_packet_parse(kind, data@)->Err_0 == r->Err_0,
        kind == HciPacketKind::Cmd ==> r is Err && r->Err_0 == HciBytesError::InvalidValue,
        is_framed_kind(kind) ==> (r is Ok <==> framed_rest(kind, data@) is Some),
        is_framed_kind(kind) && r is Ok ==> r->Ok_0.1@ == framed_rest(kind, data@)->0,
        is_framed_kind(kind) && r is Err ==> r->Err_0 == HciBytesError::InvalidSize,
{
    let kind = match kind {
        HciPacketKind::Cmd => PacketKind::Cmd,
        HciPacketKind::AclData => PacketKind::AclData,
        HciPacketKind::SyncData => PacketKind::SyncData,
        HciPacketKind::Event => PacketKind::Event,
        HciPacketKind::IsoData => PacketKind::IsoData,
    };
    match ControllerToHostPacket::from_hci_bytes_with_kind(kind, data) {
        Ok(r) => Ok(r),
        Err(FromHciBytesError::InvalidSize) => Err(HciBytesError::InvalidSize),
        Err(FromHciBytesError::InvalidValue) => Err(HciBytesError::InvalidValue),
    }
}

/// What reading a packet from the controller gives, from its packet type
/// byte `kind_byte` and the bytes `body` after it: an unknown type byte is
/// invalid data; otherwise the outcome is the HCI parser's, its reason for
/// refusing the packet mapped to a transport error.
pub open spec fn controller_packet_outcome(kind_byte: u8, body: Seq<u8>) -> Result<(), Error> {
    match packet_kind_of(kind_byte) {
        None => Err(Error::Io(ErrorKind::InvalidData)),
        Some(kind) => match controller_packet_parse(kind, body) {
            Ok(_) => Ok(()),
            Err(e) => Err(error_of_hci_bytes(e)),
        },
    }
}

/// Turns the HCI parser's outcome into the transport's: the packet on
/// success, otherwise the parser's reason mapped to a transport error. The
/// bytes after the packet are dropped.
pub fn packet_from_parse<'a>(parsed: PacketParse<'a>) -> (r: Result<ControllerToHostPacket<'a>, Error>)
    ensures
        parsed is Ok <==> r is Ok,
        parsed is Ok ==> r->Ok_0 == parsed->Ok_0.0,
        parsed is Err ==> r->Err_0 == error_of_hci_bytes(parsed->Err_0),
{
    match parsed {
        Ok((packet, _)) => Ok(packet),
        Err(e) => Err(Error::from(e)),
    }
}

/// Parses the first `n` bytes of `rx` as a packet from the controller: the
/// packet type byte `rx[0]`, then the packet of that kind in `rx[1..n]`, as
/// the HCI parser reads it. A command, which the controller never sends, is
/// refused as invalid data; an ACL, synchronous or event packet succeeds
/// exactly when its header and announced body are there, and is otherwise
/// refused as invalid input.
///
/// With `n == 0` only an invalid type byte in `rx[0]` can be reported; every
/// other such call would slice `rx` out of order.
pub fn parse_controller_packet<'a>(rx: &'a [u8], n: usize) -> (r: Result<ControllerToHostPacket<'a>, Error>)
    requires
        n <= rx@.len(),
        n == 0 ==> rx@.len() >= 1 && packet_kind_of(rx@[0]) is None,
    ensures
        n == 0 ==> r is Err && r->Err_0 == Error::Io(ErrorKind::InvalidData),
        n >= 1 ==> (r is Ok <==> controller_packet_outcome(rx@[0], rx@.subrange(1, n as int)) is Ok),
        n >= 1 && r is Err ==> r->Err_0 == controller_packet_outcome(rx@[0], rx@.subrange(1, n as int))->Err_0,
        n >= 1 && r is Ok ==> r->Ok_0 == controller_packet_parse(packet_kind_of(rx@[0])->0, rx@.subrange(1, n as int))->Ok_0.0,
        rx@.len() >= 1 && rx@[0] == HCI_COMMAND_INDICATOR ==> r is Err && r->Err_0 == Error::Io(ErrorKind::InvalidData),
        n >= 1 && packet_kind_of(rx@[0]) is Some && is_framed_kind(packet_kind_of(rx@[0])->0) ==> (r is Ok <==> framed_rest(packet_kind_of(rx@[0])->0, rx@.subrange(1, n as int)) is Some),
        n >= 1 && packet_kind_of(rx@[0]) is Some && is_framed_kind(packet_kind_of(rx@[0])->0) && r is Err ==> r->Err_0 == Error::Io(ErrorKind::InvalidInput),
{
    let kind = match packet_kind_from_hci_bytes_complete(vstd::slice::slice_subrange(rx, 0, 1)) {
        Ok(kind) => kind,
        Err(e) => return Err(Error::from(e)),
    };
    packet_from_parse(controller_packet_from_hci_bytes_with_kind(kind, vstd::slice::slice_subrange(rx, 1, n)))
}

/// The host reads exactly the packet the runner received: a packet of at
/// most `BT_HCI_MTU` bytes, once stored and copied to the front of a receive
/// buffer that can hold it, has its length as the copied length, and the
/// type byte and body that `parse_controller_packet` then reads from that
/// receive buffer are the packet's own first byte and remaining bytes.
pub proof fn lemma_host_reads_received_packet(data: Seq<u8>, rx: Seq<u8>)
    requires
        1 <= data.len() <= BT_HCI_MTU,
        data.len() <= rx.len(),
    ensures
        stored_packet(data).len() == data.len(),
        copied_to(stored_packet(data), rx)[0] == data[0],
        copied_to(stored_packet(data), rx).subrange(1, data.len() as int) == data.subrange(1, data.len() as int),
{
    assert(stored_packet(data) =~= data);
    assert(copied_to(stored_packet(data), rx).subrange(1, data.len() as int) =~= data.subrange(1, data.len() as int));
}

} // verus!
