# solaredge_modbus

Typed access to SolarEdge inverters over Modbus TCP (SunSpec register maps): the
inverter's own model, meters (SunSpec models 201–204) and DER AC measurement blocks
(model 701) in the inverter's three meter slots, and mDNS discovery of inverters.

The library in `src/` is verified with Verus:

- `transport` — the Modbus TCP connection. Every read and its outcome (the registers,
  or the Modbus error) is recorded as ghost state, so the contract of each getter
  states which registers it requests, which value it returns from the replies, and
  that a failed read is reported with that read's error. The values a device answers
  are not modelled: they come from the device.
- `decode` — register replies to numbers, text and scaled values (`value * 10^scale`).
- `reading` — the shared read patterns (one register, a value with its scale factor,
  combined into one request when the registers are adjacent).
- `tcp_client`, `meter`, `der_ac` — the three register maps and their clients; the DER
  AC client caches scale factors.
- `slot` — slot addresses, `Slot::probe`, whose contract ties what it reports for
  a slot to the reads it made, and `Slot::from_probe`, which turns what was found into
  a `Slot`. `Slot::open_on_transport` and `Slot::open` hand a meter
  or DER AC client the probing connection; for an empty slot nothing of the reads is
  kept, so their contracts say no more of it.
- `discover` — the decisions taken on each mDNS answer.

`app/` holds what cannot be verified: the asynchronous mDNS discovery loop, the
conversion of readings to floating point, and an error type with `Display`.
