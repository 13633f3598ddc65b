# AutoCopy

AutoCopy is a tiny macOS menu bar utility with one job: when you select
text anywhere (by mouse, or with Cmd+A) it sends Cmd+C for you.

This crate is its decision logic, each function with a proved contract:

- `reaction`: what an input event leads to (nothing when disabled,
  otherwise wait the configured delay, then copy unless the focused app
  confirms nothing is selected), with laws over whole runs of events.
- `event_tap`: the gesture filter (Control-click never, multi-click always,
  single click only when dragged) and the chord filter (bare Cmd+A, no
  autorepeat); `keys` holds the keycodes and modifier masks.
- `selection`: the three-state "is text selected?" answer.
- `menu`: what a click on the tray menu does to the settings.
- `conflicts` and `plist`: the startup check for system-wide keyboard
  shortcuts and custom app shortcuts that claim Cmd+A or Cmd+C, over a
  plain model of the property lists read from the preferences.
- `icon`: decoding the tray icon with the `png` crate and normalising any
  8-bit layout to RGBA.
- `config`, `platform`, `text`: the settings, the event and backend types,
  and string helpers.

`app/` is the program around it: the event loop and threads, the settings
file, the tray, and the macOS backend (event taps, Accessibility queries,
key synthesis, preference reads).
