# rmgba

The logic of RMGBA, a Game Boy Advance emulator front end, as a library
verified with Verus, and the GTK program around it.

- `src/` is the verified library:
  - `saves` and `store_format`: the remembered save of each ROM and the
    text file that holds them (`rom_name TAB save_path` lines);
  - `emulation`: the decisions of the emulation thread (start-up, the
    per-frame loop, error reports, frame pacing);
  - `keys`, `settings`, `preferences`: pad buttons, keyboard bindings and
    the interactive remapping of them;
  - `window`: turning a frame into texture bytes.
- `app/` is the GTK/libadwaita program: windows and dialogs, the emulator
  core, audio output, files and settings.
- `tests/` exercises the library.
