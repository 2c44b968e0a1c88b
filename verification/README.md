# meeting_detector

Detects Google Meet, Microsoft Teams and Zoom calls, so that a recorder can be
started when a call begins and stopped when it ends.

`src/` is a library verified with Verus. It decides; it does not act:

- `signals.rs` tells from Core Audio clients and process names which apps are in a call.
- `detector.rs` confirms a meeting whose signal persists (`start_confirm_secs`) and
  ends one whose signal stays away (`stop_grace_secs`).
- `monitor.rs` goes from reply to reply: settings, probes, recorder, pause.
- `settings.rs`, `commands.rs`: settings, and the commands of the settings view.
- `laws/` holds what is proved of the whole, such as that only a recording that the
  detector has started is ever stopped.

`app/` is the host side: settings file, Core Audio, events, notifications, and the
loop that performs what the monitor asks for. `app/host.rs` is what it needs of the
desktop app; `app/tauri_plugin.rs` is that for Tauri.

The wall clock comes from `chrono` and the process list from `sysinfo`.
