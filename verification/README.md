# a2vm-core

An Apple II / II+ emulator core written in Verus: every function of the
library carries a `requires` / `ensures` contract that Verus proves.

## Layout

- `src/cpu/` — the NMOS 6502. `semantics.rs` states each instruction as a
  spec function over a CPU state and a 64K memory image; `trace.rs` states
  each step over any bus, as a chain of bus states linked by the bus's own
  read, write and cycle relations in the order the CPU makes its accesses;
  `footprint.rs` says which addresses an instruction reads and writes;
  `mod.rs` is the executable CPU, proved to follow `trace.rs` on every bus
  and `semantics.rs` whenever its accesses are plain; `laws.rs` holds the
  arithmetic, flag, stack and cycle laws (binary and decimal ADC/SBC,
  compares, rotates, BIT, push/pull, JSR/RTS, BRK, operand resolution,
  cycle counts); `disasm.rs` the disassembler.
- `src/bus.rs`, `src/memory.rs` — the bus trait (relations for reads,
  writes and the cycle count, a 64K image and the addresses at which reads
  and writes are plain) and flat 64K memory.
- `src/disk/` — Disk II: 6-and-2 and 4-and-4 codecs, DOS 3.3 interleave,
  track nibblization and decoding (`roundtrip.rs` proves that decoding a
  nibblized track gives the sectors back whenever no sector's 6-and-2
  encoding holds the byte $DE, which ends a data field for the decoder),
  the drive and controller state machine, and sector reads and writes with
  their write-back.
- `src/machine/` — the Apple II: memory map and soft switches
  (`bus_state.rs`), the DOS RWTS fast-disk trap (`rwts.rs`), stepping and
  cycle budgets, each run a chain of machine steps (`runtime.rs`), and
  machine-level laws (`laws.rs`).
- `src/video/` — TEXT / lo-res / hi-res rendering to a monochrome bitmap,
  to RGBA, to braille text, and the status line.
- `src/keyboard.rs`, `src/mechanical.rs`, `src/timing.rs` — key mapping,
  the disk-noise event tracker, and wall-clock pacing.
- `app/` — the terminal frontend: argument parsing, files, the terminal
  loop, audio synthesis and scanline shading (floating point).
- `tests/` — the test suite.
