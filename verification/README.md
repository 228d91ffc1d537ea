# voxygen_render

The rendering subsystem of a voxel game, with its decisions verified by Verus.

- `src/` is the verified library. It knows GPU objects by number and never touches a
  device. Operations that need one (making a renderer, resizing its targets, changing a
  mode, flushing a frame, taking a screenshot, creating a buffer) are tasks that ask a
  backend for one thing at a time and are resumed with the answer. Draw calls and clears are
  returned as plain values.
- `src/laws.rs` states what holds of the renderer as a whole. `src/history.rs` states what
  holds of its targets and of its shadow map through resizes, changes of modes, flushes,
  screenshots and changes of the window. `src/device.rs` models the queues of a device and
  states what flushes and screenshots do to them.
- `tests/` runs the library against simulated backends.
- `app/` is the backend for `gfx` and OpenGL. The host provides its assets and the layouts
  of its pipelines through two traits.

What is trusted: the expansion of `#include` directives by `glsl-include`, the construction
of an image by `image`, and the channel types of three formats of `gfx`. Of the backend it is
assumed that its replies answer the requests, as `Reply::answers` says. That the context which
it makes for the expansion holds the files that it was asked to put there is not part of that:
where a law needs it, the law says so.
