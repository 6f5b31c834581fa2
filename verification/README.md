# hemu_gui

The front-end logic of a multi-system emulator, written in Verus: each function
carries a `requires`/`ensures` contract that Verus proves.

Layout:

- `src/` — the verified library.
  - `rom_detect` — recognising a ROM image (by content, and by file extension
    with a preferred system).
  - `cli` and `numbers` — the command line and the numbers it accepts.
  - `settings` — key mappings, input configuration and display settings.
  - `controller` and `pad_remap` — keyboard state to pad state, and pad state to
    each system's controller format.
  - `menu`, `popup_window`, `selector`, `status_bar`, `ui_render` — the overlays,
    drawn into ARGB framebuffers with an 8x8 bitmap font; `debug_overlay` — the
    per-system debug information overlays.
  - `save_state` — save slots (base64 data, SHA-256 ROM hash check).
  - `runtime_state` — mounts and the loaded project.
  - `debug_dump`, `dump_document` — the lines of a debug dump (numbers, memory
    dump, disassembly, registers) and the whole document built from a snapshot
    of the machine.
  - `screenshot` — the pixels and names of screenshots.
  - `local_time` — the local date and time and the timestamps written from it.
  - `system_adapter` — the debug information a system exposes to the UI.
  - `video_processor` — the software video processor. It offers initialisation
    and resizing only: post-processing frames with CRT filters is not part of
    this crate, as the filter code it would call is not available here.
  - `text` — string helpers shared by the modules.
- `tests/` — tests of the library.
- `app/` — the program around it: command line, configuration and save files,
  PNG and dump files, and what works on floating-point values.
