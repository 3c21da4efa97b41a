# solidboy

The core of a Game Boy / Game Boy Color emulator, written in Verus: every
function in `src/` carries a contract that Verus proves.

- `memory_bus` — the address space the CPU sees: the cartridge, the PPU,
  the audio unit, the timer, banked work RAM with its echo, high RAM, the
  joypad and interrupt registers and OAM DMA; every access runs the
  hardware for four cycles.
- `cpu` — the SM83 core: the opcode tables (`cpu/instructions.rs`), the
  step that serves interrupts, idles in HALT or fetches, decodes and
  executes an instruction (with the CB prefix and the delayed EI), every
  instruction, the stack and interrupt service. A step that would need an
  access the bus refuses stops the core (`faulted`).
- `emulator` — runs instructions until a cycle budget is spent.
- `ppu` — video RAM, OAM and the LCD registers, the scanline renderer
  (`ppu.rs`), the OAM scan (`ppu/oam.rs`) and the dot clock (`ppu/timing.rs`).
- `timer` — DIV/TIMA/TMA/TAC with the delayed TMA reload.
- `mbc` — the cartridge bank controllers (none, MBC1, MBC3 with its
  real-time clock, MBC5).
- `audio` — the four sound channels and the unit around them
  (`audio/apu.rs`: NR50/NR51/NR52, power-off and the 512 Hz frame
  sequencer); each channel reports the 4-bit level it feeds its DAC.
- `registers`, `register_file` — the CPU register files.
- `flat_memory` — a plain 64 KiB memory with no mapping, for tests of code
  that only needs bytes.
- `adapters`, `model` — the serial port and the hardware model.
- `bits` — bit-vector facts about bytes and words shared by the proofs.

`app/` is the host side: reading ROM files, the browser callbacks
(wasm-bindgen), handing finished frames and joypad state over, printing
serial output and the floating-point sound mixing.
