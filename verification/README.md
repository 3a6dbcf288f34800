# h35_desktop

The decision logic of a native window and webview host for hypermedia-driven
desktop apps, written in Verus and proved against its contracts.

- `src/bundle.rs`: whether an executable runs from a macOS `.app` bundle.
- `src/events.rs`: the preview events, the IPC messages they come from, and the
  close-window shortcut.
- `src/external.rs`: which links leave the webview for the system's handler.
- `src/preview.rs`: the preview window's session as a state machine from
  window-loop input to effects, with the laws it keeps.
- `src/update.rs`: when the self-updater may run.
- `app/`: the window-system glue (keyboard conversion from `tao`, spawning the
  system's URL handler, the webview data directory, the Sparkle updater).
- `tests/`: tests of the library on concrete values.
