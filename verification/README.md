# dm2

Verified construction of instruction packets for ROBOTIS Dynamixel XL-320
servos (protocol 2.0), and the decisions of a small servo control program.

- `src/bytes.rs`: low/high bytes of a word and joining them.
- `src/crc.rs`: the protocol's CRC-16, computed with the lookup table and
  proved equal to the bit-by-bit definition with polynomial 0x8005.
- `src/registers.rs`: control-table addresses, instruction codes, broadcast id.
- `src/packet.rs`: packet layout as a specification, the packet builder and
  the packets for LED, torque, control mode, angle limits, speed, position
  and ping.
- `src/link.rs`: what to do after a packet's echo and a status packet are read.
- `src/control.rs`: start-up checks and the packet sequences of the control loop.
- `app/`: the program itself (UART through librobotcontrol, web server,
  websocket gamepad input, Prometheus metrics); floating-point conversions of
  stick positions to register values live there.
