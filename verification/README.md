# vast7_engine

A GPU lattice simulation: a 3-D grid of 8-byte voxels (a pressure word and a
packed state word) held twice on the GPU, advanced by a compute shader and
drawn as a wireframe.

- `src/` is the verified library (Verus): the packed voxel format and its
  round-trip laws, the grid's flat layout and starting contents, the byte
  images uploaded to the GPU, the dispatch geometry, the wireframe mesh, and
  the per-frame step scheduling.
- `app/` is the windowed program around it: window and GPU setup (winit,
  wgpu), the orbit camera (floating point, glam), the control overlay (egui)
  and the frame loop. It reads the WGSL programs from `shaders/` in the
  working directory.
- `tests/` exercises the library.
