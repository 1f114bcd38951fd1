# soksak_sidecar_terminal_ghostty

The engine seat of a terminal restore sidecar built on the ghostty VT engine (`libghostty-vt`,
a C library). The seat turns what the engine reports into engine-neutral values for the
restore serializer; its decisions are written in Verus and proved against their contracts.

- `src/abi.rs`: the C ABI numbers the decisions compare against, and the packing of mode
  identifiers (DEC private vs ANSI), with its law.
- `src/grid.rs`: one grid read (cell, row, grapheme cluster) as plain values, and the
  engine-neutral `GridCell` it becomes; color snapshots; zero-width decoding.
- `src/engine.rs`: `Engine`, the seat's state (geometry, swallowed replies) and its readings:
  restore window, scrollback line indexing, private-mode snapshot, line assembly.
- `app/`: the program. `app/ffi.rs` declares the C ABI; `app/ghostty.rs` owns the terminal
  handle, makes the calls and hands their results to the library; `app/main.rs` runs the
  common terminal kit's service with it.
- `tests/`: tests of the library on concrete reads.
