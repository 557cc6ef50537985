# ads111x

Register model and driver logic for the TI ADS1113/ADS1114/ADS1115 16-bit
analog-to-digital converters, verified with Verus.

- `src/fields.rs`: the settings of each config register field, their bit codes
  and placement, and the laws that every setting decodes back from its bits.
- `src/config.rs`: the config register word assembled from the fields, its
  decoding, the builders, and the round-trip laws between settings and words.
- `src/bytes.rs`: big-endian bytes of unsigned and two's complement words.
- `src/driver.rs`: the driver state (bus, checked address, configuration) and
  the register transfers that each driver operation makes.
- `app/lib.rs`: performs those transfers on an `embedded_hal` (blocking) or
  `embedded_hal_async` bus and scales conversion results to volts.
