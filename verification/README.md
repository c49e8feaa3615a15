# vn2apk

Turns a PC visual-novel or RPG game folder (RPG Maker MV/MZ, TyranoBuilder,
Ren'Py) into a signed Android package.

- `src/` — the library, verified with Verus: engine detection, folder
  validation, pre-build checks, the course of a build (which stage events are
  announced and when a build stops), the Cordova project patches, the
  RPG Maker MV compatibility shim, asset renaming, signing commands, tool
  detection and installation plans, settings auto-detection (the newest of
  several installed versions, with numbers compared by value), and the wording
  of build errors.  Every decision takes what was seen of the machine as
  plain values and returns plain values.
- `tests/` — tests of the library on concrete values.
- `app/` — the desktop application around it (Tauri commands, file system,
  processes): it looks at the machine, hands what it saw to the library, and
  carries out what the library decided.
