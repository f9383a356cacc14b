# quake-modoki

Any window as a drop-down window: one hotkey makes the window that has the
focus the tracked one, another slides it out of the screen and back in. It also
slides out when it loses the focus, and an edge trigger can show and hide it
when the cursor touches the edge of the screen.

`src/` is the program without the desktop. It is written in Verus: every
function states what it does, and the statements are proved. The program waits
for one call on the desktop at a time; `request` says which, and `step` takes
what the call gave back.

- `startup`: from the start of the program to its event loop.
- `controller`: the event loop and the way out of it, with `toggle`,
  `focus_lost`, `register`, `menu` and `edge_check` for what an event sets off.
- `protocol`, `types`: the calls, the replies and the values in them.
- `config`, `hotkey`: the configuration and its hotkeys.
- `listing`, `console`, `open_config`, `failure`: the list of windows, the
  console's control signals, the command that opens the configuration file, and
  the messages for what fails.
- `laws`: what the program does over whole runs, whatever the desktop does.

`app/` makes the calls. It needs the parts that hold state on the desktop
(`app/parts.rs` says which) linked in, and runs on Windows only.

Two functions are trusted rather than proved: `parse_hotkey` in `src/hotkey.rs`,
which calls the crate `global_hotkey`, and `decode_utf16` in `src/listing.rs`,
which calls the standard library.
