# work_timer

A desktop focus/break timer. The verified library under `src/` holds:

- `timer`: the timer engine (idle, running, paused, completed; focus and
  break sessions alternating) with an abstract `TimerView` and its
  transitions. Functions that read the clock state their result for some
  reading, counting the time from the last tick to it; `pause_with`, `tick_with`, `elapsed_with` and `remaining_with`
  take the time since the last tick and are exact.
- `app`: the application's decisions (`AppCore`): events from the tray,
  hotkeys and window, the control buttons, chimes, auto-start of the next
  session, layout and colours, returned as `Effect`s for the front end.
- `config`, `events`, `hotkeys`, `tray`, `ui`: settings and defaults, the
  event type, hotkey and tray-menu id mapping, button looks.
- `text`, `wav`, `icon`: the `MM:SS` clock face, WAV framing of the chime
  samples, and the tray icon's pixels.
- `laws`: properties proved across operations.

`app/` is the egui/eframe front end: window, tray, global hotkeys, sound,
and loading and saving the TOML configuration.
