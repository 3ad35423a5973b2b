use vstd::prelude::*;

use crate::packet::{BtPacketBuf, BT_HCI_MTU};

verus! {

/// Packet type byte that opens an HCI command packet.
pub const HCI_COMMAND_INDICATOR: u8 = 0x01;

/// Bytes before the parameters of a command packet: the type byte, the
/// opcode (two bytes, little endian) and the parameter length.
pub const HCI_COMMAND_HEADER_LEN: usize = 4;

/// `p` is a complete HCI command packet: the command type byte, a little
/// endian opcode, a parameter length byte, and exactly that many parameter
/// bytes.
pub open spec fn is_command_packet(p: Seq<u8>) -> bool {
    &&& p.len() >= HCI_COMMAND_HEADER_LEN
    &&& p[0] == HCI_COMMAND_INDICATOR
    &&& p.len() == HCI_COMMAND_HEADER_LEN + p[3]
}

/// The opcode of a command packet: bytes 1 and 2, little endian.
pub open spec fn command_opcode(p: Seq<u8>) -> u16 {
    (p[1] + 256 * p[2]) as u16
}

/// The parameters of a command packet: everything after the header.
pub open spec fn command_params(p: Seq<u8>) -> Seq<u8> {
    p.skip(HCI_COMMAND_HEADER_LEN as int)
}

/// The command packet that carries `opcode` with parameters `params`.
pub open spec fn command_frame(opcode: u16, params: Seq<u8>) -> Seq<u8> {
    seq![
        HCI_COMMAND_INDICATOR,
        (opcode % 256) as u8,
        (opcode / 256) as u8,
        params.len() as u8,
    ] + params
}

/// Opcode Group Field of an opcode: its upper six bits.
pub open spec fn opcode_group(opcode: u16) -> u16 {
    opcode / 1024
}

/// Opcode Command Field of an opcode: its lower ten bits.
pub open spec fn opcode_command(opcode: u16) -> u16 {
    opcode % 1024
}

/// Splits an opcode into its Opcode Group Field and Opcode Command Field.
pub fn split_opcode(opcode: u16) -> (r: (u16, u16))
    ensures
        r.0 == opcode_group(opcode),
        r.1 == opcode_command(opcode),
        r.0 < 64,
        r.1 < 1024,
        opcode == r.0 * 1024 + r.1,
{
    let ogf = (opcode >> 10u16) & 0x3Fu16;
    let ocf = opcode & 0x3FFu16;
    assert(ogf == opcode / 1024 && ogf < 64) by (bit_vector)
        requires
            ogf == (opcode >> 10u16) & 0x3Fu16,
    ;
    assert(ocf == opcode % 1024) by (bit_vector)
        requires
            ocf == opcode & 0x3FFu16,
    ;
    (ogf, ocf)
}

/// Reads a command packet: its opcode and its parameters, or `None` when the
/// buffer does not hold a complete command packet (shorter than the header,
/// another packet type, or a length that disagrees with the parameter
/// length byte).
pub fn decode_command(packet: &BtPacketBuf) -> (r: Option<(u16, &[u8])>)
    ensures
        r is Some <==> packet.wf() && is_command_packet(packet.packet()),
        r matches Some((opcode, params)) ==> opcode == command_opcode(packet.packet())
            && params@ == command_params(packet.packet()),
{
    if packet.len < HCI_COMMAND_HEADER_LEN {
        return None;
    }
    let hci_type = packet.buf[0];
    if hci_type != HCI_COMMAND_INDICATOR {
        return None;
    }
    let opcode: u16 = packet.buf[1] as u16 + 256u16 * (packet.buf[2] as u16);
    let param_len: usize = packet.buf[3] as usize;
    if packet.len != HCI_COMMAND_HEADER_LEN + param_len {
        return None;
    }
    let params = vstd::slice::slice_subrange(
        packet.buf.as_slice(),
        HCI_COMMAND_HEADER_LEN,
        HCI_COMMAND_HEADER_LEN + param_len,
    );
    assert(params@ =~= command_params(packet.packet()));
    Some((opcode, params))
}

/// A command packet reads back as the opcode and parameters it was framed
/// with, and every command packet is the frame of its own opcode and
/// parameters.
pub proof fn lemma_command_frame_round_trip(opcode: u16, params: Seq<u8>)
    requires
        params.len() <= 255,
    ensures
        is_command_packet(command_frame(opcode, params)),
        command_frame(opcode, params).len() <= BT_HCI_MTU,
        command_opcode(command_frame(opcode, params)) == opcode,
        command_params(command_frame(opcode, params)) == params,
{
    let f = command_frame(opcode, params);
    assert(f[1] == opcode % 256 && f[2] == opcode / 256);
    assert(command_params(f) =~= params);
}

/// Every command packet is the frame of its own opcode and parameters.
pub proof fn lemma_command_packet_is_frame(p: Seq<u8>)
    requires
        is_command_packet(p),
    ensures
        command_params(p).len() <= 255,
        p == command_frame(command_opcode(p), command_params(p)),
{
    let f = command_frame(command_opcode(p), command_params(p));
    assert(f =~= p);
}

} // verus!
