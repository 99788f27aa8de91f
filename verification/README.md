# dmg_cpu

The register file and instruction execution of a Game Boy (DMG-01) style CPU,
verified with Verus.

- `src/registers.rs`: the 8-bit registers, the 16-bit pairs BC, DE and HL, and
  the flags register with its byte layout.
- `src/instruction.rs`: the instruction set as a model: how opcodes decode,
  what each instruction does to the registers, and the laws of the flags and of
  the instructions that undo each other.
- `src/cpu.rs`: the CPU, whose `execute` and `execute_cb_prefixed` are proved
  to do what the model says.
