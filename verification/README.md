# hyprdeck

The decision-making core of HyprDeck, a panel, taskbar and dock for the
Hyprland compositor, written in Verus. Every function in `src/` carries a
contract; Verus proves them all, except those of the few small wrappers
(marked `#[verifier::external_body]`) that call into `std` and `chrono`,
whose contracts are taken on trust and say in their doc comments what they
claim.

## Layout

- `src/event.rs`, `src/state.rs`, `src/ipc.rs` — Hyprland's event-socket
  line format, the compositor model those events update, the startup
  snapshot built from command-socket queries, and the reconnect schedule.
- `src/notification.rs` — the notification queue and where its stack is
  placed on an output.
- `src/config.rs`, `src/palette.rs` — configuration checks reported to a
  settings editor, and the colours a theme and the user's overrides give a
  panel.
- `src/panel.rs`, `src/popup.rs` — which events make a panel redraw, how a
  pointer event is routed along the layout, where keyboard and wheel input
  goes, popup toggling, frame gating and handing pixels to the compositor.
- `src/modules/` — the built-in modules: calendars, clock, network, sound
  mixer state and commands, shell and weather schedules, workspaces and
  window list, power menu, desktop-entry icon lookup and the module registry.
- `src/text.rs`, `src/find.rs` — string and search helpers with their
  specifications, shared by the rest.
- `tests/` — executable tests of the library.
- `app/` — ordinary Rust around the library: reading and saving the
  configuration, the Hyprland sockets, system polling, audio and shell
  processes, HTTP weather, and the floating-point pieces (moon phases,
  pointer hit testing, slider positions, fractional link speeds).
