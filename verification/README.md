# smooth_scroll

A macOS utility that replaces a mouse's discrete wheel ticks with smooth,
velocity-based pixel scrolling.

- `src/` is the verified library (Verus): the screening of tapped events
  (`tap`), the frame clock (`clock`), the event-tap thread and the display
  link and its sleep-loop fallback as state machines with their resource
  accounting (`tap_thread`, `display_link`, `fallback_loop`), starting and stopping the engine (`engine`), the settings
  window's and tray menu's decisions (`commands`), and CoreVideo data (`cv`).
- `app/` is the platform layer: CoreGraphics/CoreVideo FFI, threads, the
  floating-point scroll physics, logging, and the Tauri application. It
  performs the commands the library's state machines give.
- `tests/` exercises the library on concrete values.
