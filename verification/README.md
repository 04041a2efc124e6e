# yt_music

The verified core of a desktop client for a music streaming web app.

- `src/` is the library, checked by Verus:
  - `bridge_health`: heartbeats from the injected player script, the status
    report (healthy / degraded / starting / dead) and the watchdog's decision
    to re-inject the script, with exponential backoff and a cap on attempts.
  - `diagnostics`: the bounded event log (the latest 50 events, oldest first)
    and its timestamps.
  - `settings`: telemetry switch and update channel as read from and written
    to the settings store.
  - `updater`: update manifest endpoints per channel and the update report.
  - `commands`, `shell`: player scripts, tray menu, media keys, overlay windows.
  - `clock`, `text`: clock readings and decimal text.
- `app/` is the Tauri shell: plugins, windows, the settings store, the
  updater, and the commands the web views invoke.
- `tests/` runs the library.
