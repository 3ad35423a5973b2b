# bt_hci_transport

HCI transport between a Bluetooth LE host stack (speaking the `bt-hci`
`Transport` interface) and the STM32WBA controller, with its packet logic
verified by Verus.

- `src/packet.rs`: the fixed-size packet buffer, storing a controller packet,
  copying it into the host's receive buffer, recording a written packet.
- `src/command.rs`: the framing of HCI command packets and the split of an
  opcode into its group and command fields.
- `src/hci.rs`: parsing a controller packet with the `bt-hci` parser.
- `src/error.rs`: the transport error and how parser errors map to it.
- `src/runner.rs`: the runner step that takes one command off the transmit
  channel.
- `app/lib.rs`: the static channel state, the async waits and the `Transport`
  implementation, around the library.
