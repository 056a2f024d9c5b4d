# uf-max7456

Driver logic for the MAX7456 and AT7456E single-channel monochrome on-screen
display chips, verified with Verus.

- `src/` is the verified library: the register map, the configuration and its
  builders, the register values computed from a configuration, the SPI
  transactions of every display operation, and initialization as a state
  machine that takes the bytes read from the chip and hands back the next
  transaction or delay. `src/laws.rs` states and proves the properties that
  hold across these functions.
- `app/` runs the transactions on `embedded-hal` and `embedded-hal-async` SPI
  devices and delays, as the blocking and async drivers' methods.
- `tests/` drives the library against the `embedded-hal-mock` SPI mock and
  checks the transactions and results on concrete values.
