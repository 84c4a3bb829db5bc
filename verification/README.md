# ossm_ble

The Bluetooth command protocol of the OSSM motor firmware, verified with Verus.

- `src/text.rs`: whitespace trimming, decimal integers (reading as
  `str::parse::<i32>` does, writing as `format!` does), small character helpers.
- `src/commands.rs`: the commands `go:<mode>` and `set:<param>:<value>`, their
  parsing, and the configuration change and reply that each one produces.
- `src/state.rs`: the JSON texts of the state and patterns characteristics, and
  when the state characteristic notifies.
- `src/characteristics.rs`: the service and characteristic UUIDs.
- `src/laws.rs`: properties that span these functions (whitespace around a
  command does not matter, command texts read back, replies replay the command,
  configuration changes stay in range).
- `app/`: the NimBLE GATT server and the code that locks the motor controller and
  writes the floating-point configuration; not verified.
