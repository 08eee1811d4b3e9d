# vexide_devices

A verified device library for the VEX V5 Brain.

- `src/` holds the decisions: port and device checks, decoding of what VEXos
  reports, the requests to send back, state machines for calibrations, the
  competition runtime and the consoles. Every function carries a contract
  proved by Verus; the laws of the library are public proof functions.
- `app/` talks to VEXos through `vex_sdk`: it reads the raw values the library
  takes, performs the requests it returns, and holds what the library cannot
  (floating-point readings, futures and streams, outside trait impls).
- `tests/` runs the library on concrete values.
