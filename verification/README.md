# sx127x

Register-level logic for the Semtech SX127x transceiver (FSK and LoRa modems), verified with
Verus.

- `src/` is the verified library: register maps, field codecs (`get_bits`/`set_bits` and the
  enums read from and written to registers), the frequency, data-rate, RSSI and OCP
  calculators, validation of user settings, and the multi-step driver commands (transmit,
  receive, packet read-out, spreading factor and header mode changes) written as state
  machines that ask for one register access at a time.
- `app/` runs those decisions over an `embedded-hal-async` SPI device: it performs the accesses
  a command asks for and hands the values read back. The floating-point frequency error
  indication lives there too.
- `tests/` exercises the library on concrete register values, including a simulated register
  file that runs each command from start to end.
