# gbat

Reads the battery level and charging state of a Logitech mouse over HID++
and prints one line, e.g. `Battery: 42% (charging)`.

The library under `src/` holds every decision, each verified with Verus:

- `hidpp`: report constants, request encoding, reply matching and the
  root-feature and battery decoders.
- `exchange`: one request as a state machine (flush queued reports, write
  the request, wait for the matching reply within its deadline).
- `battery`: feature lookups and battery queries, and the battery read that
  falls back from UNIFIED_BATTERY to BATTERY_STATUS.
- `discovery`: the probe of one device index, the index-major probe order
  within the discovery budget, and the interfaces kept open for probing.
- `probing`: a whole discovery over interface slots, with the opener, the
  prober and the clock supplied by the caller.
- `interfaces`: which enumerated HID interfaces are probed, and in what order.
- `cli`: the battery line, the version line and the failure messages.

`app/` is the command: it enumerates and opens HID devices with `hidapi`,
performs the reads and writes the state machines ask for, and prints.
