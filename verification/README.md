# xilem_lite

Verified state and decision logic of a small windowing and view toolkit,
written in Verus.

- `src/` is the verified library: window identifiers and their counter, the
  external-surface widget and view, the drop-down selector view, the window
  view's builders and rebuild decisions, and the GPU render context's device
  registry and surface planning. Floating-point lengths and colours are held
  as the bits of their IEEE-754 values, with the floating-point equality
  stated over those bits.
- `app/` holds what speaks to `wgpu`, `winit`, `accesskit` and `tracing`:
  conversions to and from the library's plain values, device and surface
  creation, the compositing pipeline, and the process-wide id counter.
- `tests/` runs the library on concrete values.
