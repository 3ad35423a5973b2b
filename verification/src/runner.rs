use vstd::prelude::*;

use embassy_sync::blocking_mutex::raw::NoopRawMutex;
use embassy_sync::zerocopy_channel::{Receiver, Sender};

use crate::command::{decode_command, is_command_packet, split_opcode};
use crate::packet::BtPacketBuf;

verus! {

/// Receiving end of the channel of packets from the host to the controller.
#[verifier::external_body]
pub struct TxChannel<'d> {
    pub receiver: Receiver<'d, NoopRawMutex, BtPacketBuf>,
}

/// Sending end of the channel of packets from the controller to the host.
#[verifier::external_body]
pub struct RxChannel<'d> {
    pub sender: Sender<'d, NoopRawMutex, BtPacketBuf>,
}

/// The packets that the receiving end of the transmit channel can take,
/// oldest first: those the host's sending end has finished and that were not
/// yet released by `receive_done`. The host's end, which runs in another task
/// of the same executor, adds packets between runner steps; within a step,
/// which never yields, only the runner's own calls change them.
pub uninterp spec fn pending_packets(chan: TxChannel<'_>) -> Seq<BtPacketBuf>;

/// Calls `embassy_sync::zerocopy_channel::Receiver::try_receive`. Trusted to
/// leave the channel as it is and to hand out the oldest pending packet, or
/// nothing when no packet is pending.
#[verifier::external_body]
fn try_receive<'r, 'd>(chan: &'r mut TxChannel<'d>) -> (r: Option<&'r BtPacketBuf>)
    ensures
        pending_packets(*final(chan)) == pending_packets(*old(chan)),
        pending_packets(*old(chan)).len() == 0 <==> r is None,
        r matches Some(p) ==> *p == pending_packets(*old(chan))[0],
{
    match chan.receiver.try_receive() {
        Some(p) => Some(p),
        None => None,
    }
}

/// Calls `embassy_sync::zerocopy_channel::Receiver::receive_done`. Trusted to
/// release the oldest pending packet; the call panics when none is pending.
#[verifier::external_body]
fn receive_done(chan: &mut TxChannel<'_>)
    requires
        pending_packets(*old(chan)).len() > 0,
    ensures
        pending_packets(*final(chan)) == pending_packets(*old(chan)).drop_first(),
{
    chan.receiver.receive_done()
}

/// Runner that takes command packets from the host off the transmit channel
/// and hands them to the controller, and whose receive channel carries the
/// controller's packets to the host.
pub struct BtHciRunner<'d> {
    /// Receiving end of the channel of packets from the host.
    pub tx_chan: TxChannel<'d>,
    /// Sending end of the channel of packets to the host.
    pub rx_chan: RxChannel<'d>,
}

impl<'d> BtHciRunner<'d> {
    /// Processes at most one outgoing packet: when the transmit channel holds
    /// one, it is sent to the controller as a command and released.
    pub fn process_tx(&mut self)
        ensures
            pending_packets(old(self).tx_chan).len() == 0 ==> pending_packets(final(self).tx_chan)
                == pending_packets(old(self).tx_chan),
            pending_packets(old(self).tx_chan).len() > 0 ==> pending_packets(final(self).tx_chan)
                == pending_packets(old(self).tx_chan).drop_first(),
            final(self).rx_chan == old(self).rx_chan,
    {
        match try_receive(&mut self.tx_chan) {
            Some(packet) => {
                let _ = Self::send_command(packet);
                receive_done(&mut self.tx_chan);
            },
            None => {},
        }
    }

    /// Sends a command packet to the controller. Fails when the buffer does
    /// not hold a complete command packet.
    pub fn send_command(packet: &BtPacketBuf) -> (r: Result<(), ()>)
        ensures
            r is Ok <==> packet.wf() && is_command_packet(packet.packet()),
    {
        match decode_command(packet) {
            Some((opcode, params)) => Self::dispatch_command(opcode, params),
            None => Err(()),
        }
    }

    /// Dispatches a command, split into its group and command fields, to the
    /// controller. Every command is accepted.
    pub fn dispatch_command(opcode: u16, params: &[u8]) -> (r: Result<(), ()>)
        ensures
            r is Ok,
    {
        let (_ogf, _ocf) = split_opcode(opcode);
        Ok(())
    }
}

} // verus!
