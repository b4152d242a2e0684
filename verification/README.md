# gameboy

The core of a Game Boy (DMG) emulator, written in Verus and verified.

- `src/cpu/registers.rs`: the register file; views as `RegsView`.
- `src/cpu/instruction.rs`: the instruction set and the two opcode tables,
  proved equal to the field-by-field description of the encoding.
- `src/cpu/semantics.rs`: what each machine cycle does, as spec functions over
  the CPU and bus views.
- `src/cpu/processor.rs`: the CPU, advanced one machine cycle at a time by
  `tick`, proved against `tick_spec`.
- `src/cpu/properties.rs`: properties of the instruction semantics.
- `src/bus.rs`: the memory map.
- `src/mmu/`: cartridge, bank controllers (none, MBC1), work RAM, I/O registers.
- `app/main.rs`: the program entry point.
