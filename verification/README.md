# vulkan_engine

A small Vulkan viewer that opens a fullscreen window and draws a cube seen
through a perspective camera. Its decisions and data are a Verus-verified
library in `src/`:

- `window_config`: the window's default settings;
- `controls`: key names and what a key press means (`handle_keyboard`);
- `main_loop`: one step of the event loop, from event to command, with the
  laws that tie it to `handle_keyboard`;
- `device`: choosing the GPU and queue family to render with;
- `vertex`, `mesh`: the cube on a half-unit lattice, proved to index only
  existing vertices, to wind every triangle counter-clockwise seen from outside,
  and to close up without holes.

`app/` is the program around it: the winit window and event loop, the cgmath
camera and transforms (floating point), and the vulkano renderer, which asks the
GPU about its devices and uploads the mesh.
