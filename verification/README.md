# raytracer

A compute-shader ray tracer that renders through wgpu into a winit window.

- `src/` is the verified library: the shader parameter block and the bytes
  written to its uniform buffer (`compute`), surface sizing, compute dispatch
  sizing and the per-frame decisions taken on the status of the acquired
  surface texture (`graphics`), and the routing of window events (`app`).
- `app/` is the program around it: the winit event loop, the wgpu device,
  pipelines, passes and presentation. It reads its shaders at start-up from
  `shaders/blit.wgsl` and `shaders/compute.spv`, relative to the working
  directory.
- `tests/` exercises the library.
