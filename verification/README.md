# ossm

Verified core of the OSSM motion-control firmware, written in Verus.

`src/` (verified):

- `protocol` — telemetry framing: `[type][payload][crc8]`, COBS-encoded and
  zero-delimited (CRC-8/SMBUS from `crc`, COBS from `cobs`); decoding inverts
  encoding.
- `transport` — frames pre-encoded for the telemetry writer.
- `telemetry` — the 15-byte core telemetry payload layout.
- `planner` — the motion planner's phase machine (idle, moving, stopping,
  paused).
- `motion` — the motion controller's decisions for state commands, move
  commands, planner ticks, homing and board faults, with its invariant.
- `engine` — the pattern engine's playback state and the remote playback API.
- `ble` — the BLE remote's text commands, replies and pattern list/description
  characteristics (`heapless` strings).
- `m57aim` — the 57AIM servo's register map, write sequences, position frame,
  register-pair decoding and homing sequence.
- `stepper` — batching of step pulses for the pulse generator.

`app/` (not verified): the asynchronous board and motor I/O, the channels
between tasks, the floating-point trajectory generator (`rsruckig`), and the
telemetry sender, each carrying out what the library decides.
