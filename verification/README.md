# dot15d4

A verified IEEE 802.15.4 library: frames, information elements, radio timing and
the decisions of a radio driver for the nRF52840.

- `src/` is the library. Every function in it is proved against its contract with
  Verus.
  - `octets`, `text`: little-endian integers in byte containers, text.
  - `frame`: radio frames, frame control field, addressing.
  - `fields`, `repr`: the fields of an MPDU, its layout, writing and parsing it.
  - `ies`: header, payload and nested information elements, TSCH elements.
  - `mpdu`: acknowledgement, beacon and data frames.
  - `time`, `phy`, `constants`: instants, durations and the timing of the PHY.
  - `radio`, `tasks`: tasks of a radio and the transitions between them.
  - `nrf`: timers, event routing, scheduling and reception of the nRF52840.
  - `net`: preparation of the requests of a network stack.
- `tests/` runs the library on concrete values.
- `app/` connects the library to the hardware and to a network stack.

Calls into `fugit`, which does the arithmetic on instants and durations, are
believed without proof. They are the private wrappers in `src/time.rs`.
