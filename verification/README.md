# hotline

Protocol logic of a small RS485 control network (a Sign and a MegaPoofer
driven by input controllers, output boards and a Modbus relay board), written
in Verus and proved against its specification.

* `src/hotline_protocol.rs` – the eight-byte "Set Full State" frame, its CRC-8,
  and the packing of sixteen output states into two bytes.
* `src/receiver.rs` – the byte-at-a-time frame receiver of the output boards.
* `src/outputs.rs` – which outputs a message drives and which pins must switch.
* `src/inputs.rs` – the input controller's configuration and switch states.
* `src/modbus.rs` – table-driven CRC-16/MODBUS and the relay board's frames.
* `src/hex.rs`, `src/writer.rs`, `src/text.rs` – console text: hex dumps, a
  bounded writer over a caller's buffer, and reading bytes as UTF-8.
* `src/dc.rs` – the description a networked device announces, and its page.
* `src/esp.rs` – ESP-IDF status codes.

`app/` holds the firmware loops and I/O around the library: the input
controller, the output controller, the pedestal, the relay and the device
routes. The simple controller binary (one toggle per device address) is not
carried over: it calls a `create_command` function that the protocol library
does not provide, so it has no defined frame to send.
