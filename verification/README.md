# aegis-input

A service that disables the built-in keyboard and touchpad of a laptop while an
external keyboard or mouse is attached, and enables them again once the last one
is gone.

`src/` is the library, written in Verus and verified:

- `logic` — the device-state machine (`SystemState`), the actions it emits, and the
  laws that hold of every run of it (`logic/laws.rs`).
- `service` — the runner that feeds platform events through the state machine and
  hands the actions back to the platform; the status snapshot.
- `platform` — the platform interface; on Linux, the evdev disabler, the evdev
  device scan and the interpretation of udev properties.
- `config` — the service settings, the per-device configuration, its validation and
  the resolution of device references; where the files live.
- `detection` — input devices, their validation, the reading of the user's choice,
  the detection session, and the clock with its session time stamp.
- `installer` — installation data, errors and their presentation, log lines, and the
  commands and paths of each installer step (`installer/plan.rs`).
- `cli` — command dispatch and what the commands print.
- `path` — paths compared by their components, as `std::path::Path` compares them.
- `text` — string handling shared by the modules.

`app/` is the program around it: argument handling, files, TOML, udev, systemd,
the terminal, logging output and the never-ending service loop.
