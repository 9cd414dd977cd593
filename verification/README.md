# nes_cpu

A MOS 6502 processor core for a NES emulator, written in Verus.

- `src/state.rs` – the machine as a mathematical value (`CpuState`): registers,
  status flags and a 64 KiB memory as a sequence of bytes.
- `src/semantics.rs` – what every instruction does to that value, what one
  fetch-decode-execute step does (`step_spec`), and what running until `BRK`
  gives (`run_steps`, `halts_in`).
- `src/opcodes.rs` – addressing modes, instructions and the decoding table.
- `src/cpu.rs` – the executable `CPU`, each operation proved to match the model.
- `src/bus.rs` – the start of the NES bus: 2 KiB of RAM mirrored over
  0x0000..=0x1FFF.
- `src/laws.rs` – properties of the instruction set as a whole (flag rules,
  signed overflow of `ADC`/`SBC`, rotations undoing each other, branch and
  indirect-jump targets, determinism of a run, bus mirroring).
- `tests/` – programs run on the processor.
- `app/main.rs` – a small program run from the command line.
