use bt_hci_transport::{accepts_packet, BtPacketBuf, Error, ErrorKind, BT_HCI_MTU, PACKET_BUFFER_COUNT};

fn packet_of(bytes: &[u8]) -> BtPacketBuf {
    let mut buf = BtPacketBuf::new();
    buf.store(bytes);
    buf
}

#[test]
fn new_buffer_is_empty_and_zeroed() {
    let buf = BtPacketBuf::new();
    assert_eq!(buf.len, 0);
    assert_eq!(buf.buf.len(), BT_HCI_MTU);
    assert!(buf.buf.iter().all(|b| *b == 0));
}

#[test]
fn buffer_sizes() {
    assert_eq!(BT_HCI_MTU, 1024);
    assert_eq!(PACKET_BUFFER_COUNT, 4);
}

#[test]
fn store_keeps_short_packet() {
    let data = [0x04, 0x0e, 0x04, 0x01, 0x03, 0x0c, 0x00];
    let buf = packet_of(&data);
    assert_eq!(buf.len, data.len());
    assert_eq!(&buf.buf[..buf.len], &data[..]);
    assert!(buf.buf[buf.len..].iter().all(|b| *b == 0));
}

#[test]
fn store_leaves_rest_of_storage() {
    let mut buf = packet_of(&[9u8; 10]);
    buf.store(&[1, 2, 3]);
    assert_eq!(buf.len, 3);
    assert_eq!(&buf.buf[..10], &[1, 2, 3, 9, 9, 9, 9, 9, 9, 9]);
}

#[test]
fn store_cuts_long_packet_to_mtu() {
    let data: Vec<u8> = (0..(BT_HCI_MTU + 100)).map(|i| (i % 251) as u8).collect();
    let buf = packet_of(&data);
    assert_eq!(buf.len, BT_HCI_MTU);
    assert_eq!(&buf.buf[..], &data[..BT_HCI_MTU]);
}

#[test]
fn copy_out_round_trip() {
    let data = [0x04, 0x0e, 0x04, 0x01, 0x03, 0x0c, 0x00];
    let buf = packet_of(&data);
    let mut rx = [0xaau8; 16];
    assert_eq!(buf.copy_out(&mut rx), Ok(data.len()));
    assert_eq!(&rx[..data.len()], &data[..]);
    assert!(rx[data.len()..].iter().all(|b| *b == 0xaa));
}

#[test]
fn copy_out_exact_fit() {
    let data = [2u8, 1, 2, 3];
    let buf = packet_of(&data);
    let mut rx = [0u8; 4];
    assert_eq!(buf.copy_out(&mut rx), Ok(4));
    assert_eq!(rx, data);
}

#[test]
fn copy_out_refuses_small_receive_buffer() {
    let buf = packet_of(&[1, 2, 3, 4, 5]);
    let mut rx = [7u8; 4];
    assert_eq!(buf.copy_out(&mut rx), Err(Error::Io(ErrorKind::InvalidInput)));
    assert_eq!(rx, [7u8; 4]);
}

#[test]
fn set_written_counts_used_bytes() {
    let mut buf = BtPacketBuf::new();
    buf.buf[0] = 1;
    buf.set_written(BT_HCI_MTU - 4);
    assert_eq!(buf.len, 4);
    assert_eq!(buf.buf[0], 1);
    buf.set_written(0);
    assert_eq!(buf.len, BT_HCI_MTU);
    buf.set_written(BT_HCI_MTU);
    assert_eq!(buf.len, 0);
}

#[test]
fn empty_packets_are_not_accepted() {
    assert!(!accepts_packet(&[]));
    assert!(accepts_packet(&[0x04]));
    assert!(accepts_packet(&[0u8; 2000]));
}
