# grba_core

The core of a Game Boy Advance emulator, written in Verus: the ARM7TDMI processor (ARM and
THUMB instruction sets, register banking, exceptions), the memory bus with work RAM, BIOS,
cartridge, I/O registers, interrupts, keypad, DMA and timers, the picture processing unit's
scanline renderers, and the event scheduler that drives them.

Every function states what it does over a mathematical model of the machine (`CpuView`,
`BusView`, `PpuView`, `SchedulerView`, ...) and Verus proves the code against it.

Layout:

- `src/` the verified library; `src/emulator/` holds the machine, `src/scheduler.rs` the
  event queue, `src/utils.rs` the byte and bit helpers.
- `tests/` tests of the library on concrete programs and values.
- `app/` a small benchmark program that loads a ROM and runs frames.

Outside crates: `binary-heap-plus` keeps the scheduler's queue and `regex` finds the save
type announced in a ROM, both behind small trusted wrappers whose contracts are stated in
`src/scheduler.rs` and `src/emulator/cartridge/header.rs`; `clap` and `serde` serve `app/`.
