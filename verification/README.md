# claude_hud

A small always-on-top desktop HUD that shows how much of an AI assistant
subscription's quotas (the 5-hour rolling window and the weekly windows) has
been used, refreshed by a background poller.

- `src/` is the verified core, written in Verus: the saved store of settings,
  the latest usage snapshot and the sample history (`store`); the poll
  schedule with its back-off rules and the status reported after each poll
  (`poller`); the decisions taken on an HTTP response and the mapping of the
  endpoint's answer (`usage_client`); the error type and its messages
  (`error`); credential loading outcomes (`credentials`); window geometry and
  tray menu actions (`tray`); the start-up data for the user interface
  (`commands`); and text helpers (`text`).
- `app/` is the Tauri program around it: windows, tray, global shortcut, the
  HTTP client, the clock, the files on disk and the JSON shapes.
- `tests/` exercises the library on concrete values.
