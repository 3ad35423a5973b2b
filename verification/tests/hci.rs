use bt_hci::{ControllerToHostPacket, PacketKind};
use bt_hci_transport::{parse_controller_packet, Error, ErrorKind, HciBytesError};

#[test]
fn error_from_hci_bytes_error() {
    assert_eq!(Error::from(HciBytesError::InvalidSize), Error::Io(ErrorKind::InvalidInput));
    assert_eq!(Error::from(HciBytesError::InvalidValue), Error::Io(ErrorKind::InvalidData));
}

#[test]
fn error_kind() {
    assert_eq!(Error::Io(ErrorKind::Other).kind(), ErrorKind::Other);
    assert_eq!(Error::Io(ErrorKind::InvalidInput).kind(), ErrorKind::InvalidInput);
}

#[test]
fn parse_command_complete_event() {
    let rx = [0x04, 0x0e, 0x04, 0x01, 0x03, 0x0c, 0x00, 0xff];
    match parse_controller_packet(&rx, 7) {
        Ok(ControllerToHostPacket::Event(ev)) => assert_eq!(ev.data, &[0x01, 0x03, 0x0c, 0x00]),
        other => panic!("unexpected result {:?}", other),
    }
}

#[test]
fn parse_acl_packet() {
    let rx = [0x02, 0x40, 0x00, 0x02, 0x00, 0xaa, 0xbb];
    match parse_controller_packet(&rx, rx.len()) {
        Ok(ControllerToHostPacket::Acl(_)) => {}
        other => panic!("unexpected result {:?}", other),
    }
}

#[test]
fn parse_refuses_unknown_kind() {
    let rx = [0x09, 0x0e, 0x00];
    assert!(matches!(parse_controller_packet(&rx, 3), Err(Error::Io(ErrorKind::InvalidData))));
    assert!(matches!(parse_controller_packet(&rx, 0), Err(Error::Io(ErrorKind::InvalidData))));
}

#[test]
fn parse_refuses_command_from_controller() {
    let rx = [0x01, 0x03, 0x0c, 0x00];
    assert!(matches!(parse_controller_packet(&rx, 4), Err(Error::Io(ErrorKind::InvalidData))));
}

#[test]
fn parse_refuses_truncated_event() {
    let rx = [0x04, 0x0e, 0x0a, 0x01];
    assert!(matches!(parse_controller_packet(&rx, 4), Err(Error::Io(ErrorKind::InvalidInput))));
    assert!(matches!(parse_controller_packet(&rx, 1), Err(Error::Io(ErrorKind::InvalidInput))));
}

#[test]
fn parse_sync_packet() {
    let rx = [0x03, 0x01, 0x00, 0x02, 0x10, 0x20];
    assert!(matches!(parse_controller_packet(&rx, 6), Ok(ControllerToHostPacket::Sync(_))));
    assert!(matches!(parse_controller_packet(&rx, 5), Err(Error::Io(ErrorKind::InvalidInput))));
}

#[test]
fn parse_truncated_acl_header() {
    let rx = [0x02, 0x40, 0x00, 0x02];
    assert!(matches!(parse_controller_packet(&rx, 4), Err(Error::Io(ErrorKind::InvalidInput))));
}

#[test]
fn packet_from_parse_maps_outcome() {
    let body = [0x0e, 0x01, 0x00];
    let parsed = ControllerToHostPacket::from_hci_bytes_with_kind(PacketKind::Event, &body)
        .map_err(|_| HciBytesError::InvalidSize);
    match bt_hci_transport::packet_from_parse(parsed) {
        Ok(ControllerToHostPacket::Event(ev)) => assert_eq!(ev.data, &[0x00]),
        other => panic!("unexpected result {:?}", other),
    }
    assert_eq!(
        bt_hci_transport::packet_from_parse(Err(HciBytesError::InvalidSize)).unwrap_err(),
        Error::Io(ErrorKind::InvalidInput)
    );
    assert_eq!(
        bt_hci_transport::packet_from_parse(Err(HciBytesError::InvalidValue)).unwrap_err(),
        Error::Io(ErrorKind::InvalidData)
    );
}
