use vstd::prelude::*;

use crate::error::{Error, ErrorKind};

verus! {

/// Largest HCI packet a buffer holds, packet type byte included.
///
/// A command needs at most 1 + 3 + 255 = 259 bytes, an event 1 + 2 + 255 = 258
/// and an LE ACL packet 1 + 4 + 251 = 256; the buffers are larger to be safe.
pub const BT_HCI_MTU: usize = 1024;

/// Number of packet buffers in each direction.
pub const PACKET_BUFFER_COUNT: usize = 4;

/// One HCI packet: `len` bytes at the front of `buf`.
pub struct BtPacketBuf {
    pub len: usize,
    pub buf: [u8; BT_HCI_MTU],
}

impl BtPacketBuf {
    /// The buffer describes a packet that fits in it.
    pub open spec fn wf(&self) -> bool {
        self.len <= BT_HCI_MTU
    }

    /// The packet bytes: the first `len` bytes of the storage.
    pub open spec fn packet(&self) -> Seq<u8> {
        self.buf@.take(self.len as int)
    }

    /// Creates an empty packet buffer, every byte zero.
    pub fn new() -> (r: Self)
        ensures
            r.len == 0,
            r.wf(),
            r.packet() == Seq::<u8>::empty(),
            forall|i: int| 0 <= i < BT_HCI_MTU ==> r.buf@[i] == 0u8,
    {
        BtPacketBuf { len: 0, buf: [0u8; BT_HCI_MTU] }
    }
}

/// How many bytes of a packet of `n` bytes a buffer keeps: all of them, or
/// the first `BT_HCI_MTU` when the packet is longer.
pub open spec fn stored_len(n: nat) -> nat {
    if n <= BT_HCI_MTU {
        n
    } else {
        BT_HCI_MTU as nat
    }
}

/// The packet a buffer holds after storing `data`: `data`, cut to its first
/// `BT_HCI_MTU` bytes when longer.
pub open spec fn stored_packet(data: Seq<u8>) -> Seq<u8> {
    data.take(stored_len(data.len()) as int)
}

/// A receive buffer `rx` after `packet` was copied to its front.
pub open spec fn copied_to(packet: Seq<u8>, rx: Seq<u8>) -> Seq<u8> {
    packet + rx.skip(packet.len() as int)
}

/// Whether a packet from the controller is queued for the host: an empty one
/// is dropped, every other one is queued.
pub fn accepts_packet(data: &[u8]) -> (r: bool)
    ensures
        r == (data@.len() > 0),
{
    !data.is_empty()
}

impl BtPacketBuf {
    /// Stores a packet from the controller: its first `BT_HCI_MTU` bytes
    /// become the buffer's packet; the storage after them is left as it was.
    pub fn store(&mut self, data: &[u8])
        ensures
            final(self).wf(),
            final(self).len == stored_len(data@.len()),
            final(self).len > 0 <==> data@.len() > 0,
            final(self).packet() == stored_packet(data@),
            final(self).buf@.skip(final(self).len as int) == old(self).buf@.skip(
                final(self).len as int,
            ),
    {
        let len: usize = if data.len() <= BT_HCI_MTU {
            data.len()
        } else {
            BT_HCI_MTU
        };
        let mut i: usize = 0;
        while i < len
            invariant
                len == stored_len(data@.len()),
                len <= data@.len(),
                i <= len,
                self.buf@.len() == BT_HCI_MTU,
                forall|j: int| 0 <= j < i ==> self.buf@[j] == data@[j],
                forall|j: int| i <= j < BT_HCI_MTU ==> self.buf@[j] == old(self).buf@[j],
            decreases len - i,
        {
            self.buf[i] = data[i];
            i = i + 1;
        }
        self.len = len;
        assert(self.packet() =~= data@.take(len as int));
        assert(self.buf@.skip(len as int) =~= old(self).buf@.skip(len as int));
    }

    /// Copies the packet to the front of `rx`, the host's receive buffer, and
    /// returns its length; the rest of `rx` is left as it was. A packet longer
    /// than `rx` is refused with `InvalidInput` and `rx` is not touched.
    pub fn copy_out(&self, rx: &mut [u8]) -> (r: Result<usize, Error>)
        requires
            self.len <= old(rx)@.len() ==> self.wf(),
        ensures
            self.len > old(rx)@.len() ==> r is Err && r->Err_0 == Error::Io(ErrorKind::InvalidInput),
            self.len > old(rx)@.len() ==> final(rx)@ == old(rx)@,
            self.len <= old(rx)@.len() ==> r is Ok && r->Ok_0 == self.len,
            self.len <= old(rx)@.len() ==> final(rx)@ == copied_to(self.packet(), old(rx)@),
    {
        let n = self.len;
        if n > rx.len() {
            return Err(Error::Io(ErrorKind::InvalidInput));
        }
        let mut i: usize = 0;
        while i < n
            invariant
                n == self.len,
                n <= BT_HCI_MTU,
                n <= rx@.len(),
                rx@.len() == old(rx)@.len(),
                self.buf@.len() == BT_HCI_MTU,
                i <= n,
                forall|j: int| 0 <= j < i ==> rx@[j] == self.buf@[j],
                forall|j: int| i <= j < rx@.len() ==> rx@[j] == old(rx)@[j],
            decreases n - i,
        {
            rx[i] = self.buf[i];
            i = i + 1;
        }
        assert(rx@ =~= self.packet() + old(rx)@.skip(n as int));
        Ok(n)
    }

    /// Records that a packet was written to the front of the storage by a
    /// writer that left `remaining` bytes of it unused: the packet is the
    /// first `BT_HCI_MTU - remaining` bytes.
    pub fn set_written(&mut self, remaining: usize)
        requires
            remaining <= BT_HCI_MTU,
        ensures
            final(self).len == BT_HCI_MTU - remaining,
            final(self).wf(),
            final(self).buf == old(self).buf,
    {
        self.len = BT_HCI_MTU - remaining;
    }
}

/// A packet from the controller reaches the host unchanged: once stored in a
/// buffer, it is copied to the front of any receive buffer that can hold it,
/// and the rest of that receive buffer is kept. A packet longer than
/// `BT_HCI_MTU` bytes reaches the host as its first `BT_HCI_MTU` bytes.
pub proof fn lemma_packet_reaches_host(data: Seq<u8>, rx: Seq<u8>)
    requires
        stored_len(data.len()) <= rx.len(),
    ensures
        stored_packet(data).len() == stored_len(data.len()),
        data.len() <= BT_HCI_MTU ==> copied_to(stored_packet(data), rx) == data + rx.skip(
            data.len() as int,
        ),
        data.len() > BT_HCI_MTU ==> copied_to(stored_packet(data), rx) == data.take(
            BT_HCI_MTU as int,
        ) + rx.skip(BT_HCI_MTU as int),
{
    if data.len() <= BT_HCI_MTU {
        assert(stored_packet(data) =~= data);
    }
}

} // verus!
