# rugb

Game Boy / Game Boy Color and Game Boy Advance emulation cores, written in
Verus: the library's public operations carry contracts that Verus proves
(internal helpers are checked for safety and against their callers'
needs).

## Layout

- `src/` — the verified library.
  - Game Boy: `cpu` (SM83 and its opcode tables), `mmu`, `cartridge`
    (NoMBC, MBC1/2/5/7, HuC1/3, MMM01), `ppu`, `timer`, `serial`,
    `joypad`, `interrupt`, `savestate`.
  - Game Boy Advance (`gba`): `arm7tdmi` (ARM and THUMB), `bus`, `io`,
    `dma`, `timer`, `keypad`, `cartridge` (SRAM/Flash/EEPROM backup),
    `ppu` (bitmap, text and affine modes, sprites, blending), `apu` and `emulator`
    (the system, frame loop and save states).
  - `bits` and `raster`: shared bit-level and scanline-painting lemmas.
- `tests/` — the test suite.
- `app/` — the browser bindings (`wasm-bindgen`) and the floating-point
  audio mixing.

## What is proved

Each operation's result is pinned by its contract over a mathematical
model (sequences for memories, spec functions for the register files and
renderers). Laws stated as public proof functions include: memory writes
read back and leave other addresses alone; RAM mirroring; save states read
back what was written (Game Boy components and the whole GBA system); mode
switches restore the banked registers; BIOS division and square root;
condition codes come in opposite pairs; ring-buffer consumption.
