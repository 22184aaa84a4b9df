# SyncEdit

Collaborative map editing for Trackmania: a server holds a map and serves it to
the game clients that join; each client opens the map editor and recreates the
map in it.

## Layout

- `src/` is the verified library. It holds the logic of the client and
  the server, with contracts:
  - `pattern`: byte patterns with wildcards and their first match in module memory;
  - `code`, `hook`, `game_hook`: the machine code of hooks and trampolines, where
    they are placed, and what unhooking writes back;
  - `os`: slices of process memory and executable pages handed out front to back;
  - `classes`, `folders`, `fns`: the game's objects as plain values (reference
    counts, flags, strings, the file tree) and the game functions found by pattern;
  - `desc`, `load`: map descriptions, and how a map file's blocks, items and
    embedded custom models become one;
  - `connection`: the client's decisions while joining (opening the editor,
    naming custom model files, resolving models, the order of placement);
  - `server`: the server's replies to the editing commands;
  - `base64`, `poll`, `text`: byte strings as base64 text, poll-once-per-wake
    futures, and UTF-16 text for the operating system.
- `tests/` runs the library on concrete values.
- `app/` is the program around the library: the server's network loop, the wire
  format (serde, postcard), the Windows calls of the client DLL, and the raw
  reads and calls into the game's memory.
