# keyglance

The decision logic of a macOS keyboard overlay, verified with Verus.

- `src/keys.rs`: names of virtual key codes; which codes are modifiers.
- `src/tap.rs`: turning key-event-tap events into press/release reports,
  tracking modifier flags between events.
- `src/text_input.rs`: whether a focused accessibility element is an editable
  text input (role, then probes).
- `src/focus.rs`: finding the focused element and the rectangle of the
  focused text input, with the accessibility queries passed in as functions.
- `src/overlay.rs`: following the focused input and dismissing the overlay.
- `src/permission.rs`: waiting for the accessibility permission.
- `src/menu.rs`, `src/dock.rs`: tray menu commands, layout items, dock icon.
- `src/settings.rs`: the JSON settings document (through `serde_json`).
- `app/main.rs`: the Tauri application, file access and the macOS FFI.
