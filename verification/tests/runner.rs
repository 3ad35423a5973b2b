use bt_hci_transport::{BtHciRunner, BtPacketBuf, RxChannel, TxChannel};
use embassy_sync::blocking_mutex::raw::NoopRawMutex;
use embassy_sync::zerocopy_channel::Channel;

fn buffers() -> [BtPacketBuf; 2] {
    [BtPacketBuf::new(), BtPacketBuf::new()]
}

#[test]
fn process_tx_takes_one_packet() {
    let mut tx_bufs = buffers();
    let mut rx_bufs = buffers();
    let mut tx: Channel<'_, NoopRawMutex, BtPacketBuf> = Channel::new(&mut tx_bufs[..]);
    let mut rx: Channel<'_, NoopRawMutex, BtPacketBuf> = Channel::new(&mut rx_bufs[..]);
    let (mut host_tx, runner_tx) = tx.split();
    let (runner_rx, _host_rx) = rx.split();
    let mut runner = BtHciRunner {
        tx_chan: TxChannel { receiver: runner_tx },
        rx_chan: RxChannel { sender: runner_rx },
    };

    for packet in [&[0x01u8, 0x03, 0x0c, 0x00][..], &[0x02u8, 0x00][..]] {
        let slot = host_tx.try_send().unwrap();
        slot.store(packet);
        host_tx.send_done();
    }
    assert_eq!(host_tx.len(), 2);
    runner.process_tx();
    assert_eq!(host_tx.len(), 1);
    runner.process_tx();
    assert_eq!(host_tx.len(), 0);
    runner.process_tx();
    assert_eq!(host_tx.len(), 0);
}
