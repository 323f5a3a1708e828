# dmm_lib

Decoding and command framing for UNI-T and Voltcraft digital multimeters,
written in Verus: every parser, table and decision here carries a contract
that the verifier proves.

Layout:

- `src/measurement.rs` — what a parser hands back: the reading (its value as
  the display wrote it, a `Decimal`), the status flags, and the errors with
  their messages.
- `src/text.rs` — building strings, trimming display text, reading the
  numbers a display writes, as a float's text would be read.
- `src/specs.rs` — a manual's specification tables: rows, accuracy figures,
  and which row a range byte picks.
- `src/protocol/ut61eplus/` — the UT61E+/UT61B+/UT61D+/UT161 family: mode
  bytes, command frames, the per-model range tables, the 14-byte measurement
  payload, what a payload raises outside the documented layout, the
  per-model protocol settings, what the frames a session reads come to
  (the reading that answers a request, the newest queued reading, the name
  reply, what detection heard), the capture steps that walk a model's dial,
  and the UT61E+ manual's specification tables with the choice of table and
  row for a reading.
- `src/protocol/ut80x/` — the UT803/UT804 packet stream, which the UT71 and
  Voltcraft VC920/VC940/VC960 speak too: packet framing, both payload
  layouts, the per-model display tables, the reports, the UT803 and UT804
  manuals' specification tables with the choice of table and row for a
  reading, the capture steps for each model, and the laws that hold across
  models.
- `src/protocol/ut8802.rs` — the UT8802 bench meter's BCD payload.
- `src/protocol/steps.rs` — the capture steps of the guided protocol capture:
  what each asks for, the command it sends, and the reading it expects.

Transport I/O (USB HID bridges, Bluetooth) is not part of this crate: the
functions here take the bytes a meter sent and return the reading, or the
frame to send.
