//! Host Controller Interface (HCI) transport for the STM32WBA Bluetooth LE
//! controller.
//!
//! The crate holds the packet buffers that travel between a host stack and the
//! controller, the framing rules for command packets coming from the host, the
//! copy of controller packets into the host's receive buffer, and the runner
//! step that takes queued commands off the transmit channel.

pub mod command;
pub mod error;
pub mod hci;
pub mod packet;
pub mod runner;

pub use command::{decode_command, split_opcode};
pub use error::{Error, ErrorKind, HciBytesError};
pub use hci::{packet_from_parse, parse_controller_packet, HciPacketKind};
pub use packet::{accepts_packet, BtPacketBuf, BT_HCI_MTU, PACKET_BUFFER_COUNT};
pub use runner::{BtHciRunner, RxChannel, TxChannel};
