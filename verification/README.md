# fc2

A NES emulator whose core is verified with Verus.

- `src/` is the library: the 6502 processor (`cpu`), its memory map and
  the PPU registers (`bus`), the picture unit's memory and sprite memory
  (`ppu`), the sound channels (`apu`), the cartridge header (`nes`) and the
  emulator that ties them together and draws the picture line by line
  (`emulator`).  Each instruction, register and drawing step has a
  contract over plain values (`Seq`, `Map`, integers), and the laws the
  emulator keeps (a pull gives back a push, a return comes back from a
  call or an interrupt, a read gives back a write) are proof functions.
- `app/` is the program around it: the SDL window, keyboard, sound output
  and save states.
- `tests/` runs the library on small cartridge images.

Run it as `fc2 <cartridge.nes>`, or `fc2 show_sprites <cartridge.nes>` to
see the cartridge's sprite sheet.  F1 saves the state to
`saves/<name>_save.json`, F2 loads it back.
