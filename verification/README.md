# gameboy_core

The core of a Game Boy emulator, verified with Verus.

- `src/cpu/registers.rs`: the register file, the F register's flags and the
  16-bit register pairs.
- `src/cpu/context.rs`: the execution context (registers, 64 KiB of memory,
  interrupt and power state) and its abstract state.
- `src/cpu/instruction/operand`: registers, immediates and memory operands,
  with what reading and writing them does.
- `src/cpu/instruction/operator`: every operator of the SM83 instruction set,
  specified as a function from state to state and implemented against that
  specification; the logic operators AND, OR and XOR; assembly text.
- `src/cpu/instruction/mod.rs`: the decoder for one-byte opcodes and the 0xCB
  page, instruction fetch and execution.
- `src/cpu/command`: the command form of the logic operators, proved to agree
  with the instruction form.
- `src/cartridge/header`: loading the cartridge header from a ROM image.
- `src/audio.rs`: the clock that decides how many emulator audio frames each
  output device frame stands for.
- `app/`: audio output through `cpal`, which drives the clock above.
