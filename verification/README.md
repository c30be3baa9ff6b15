# wayland-shadow-overlay

A full-screen, click-through Wayland overlay that draws a warm "light through
curtains" effect with a wgpu fragment shader.

- `src/` is the verified library: the choice of surface format, alpha mode
  and present mode; the surface settings; the overlay's state machine
  (configure, close, frame requests, event-loop steps); the layer placement;
  and laws over runs of events (`src/laws.rs`).
- `app/` is the program: Wayland connection, GPU set-up, the shader (floating
  point) and the event loop, which asks the library for every decision.
- `tests/` exercise the library on concrete values.
