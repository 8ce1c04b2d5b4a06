# voxel_march

A voxel ray marcher: a world of voxel regions is generated, uploaded to the gpu and drawn by a
compute shader each frame, with temporal anti-aliasing between two history textures.

The crate is written in Verus. `src/` is the verified library:

- `controls`: keyboard and mouse handlers that map inputs to actions and track presses,
  releases and held inputs.
- `game`: region layout and byte encoding, world generation (terrain, trees, brick occupancy
  grids), the world, the game state (input processing, the requests for its gpu resources,
  the passes of a frame) and the rendering passes: their blueprints and the requests each
  makes when it starts and after a resize.
- `graphics`: resource blueprints (buffers, textures, samplers, bind groups, pipelines, vertex
  layouts), the resource handler that tracks pending, ready and failed resources over time,
  the bind group and pipeline registries, the gpu context that decides what to create and
  whether a draw or dispatch may run, a single-pipeline renderer, and the graphics setup that
  hands out its settings once.
- `utils`: font asset ids.

`app/` is the program around it: the window (winit), the gpu (wgpu), the workers that create
resources (tokio), and the camera and sky, which work on floating point numbers.

Resources are kept in small tables of entries with distinct names, held in a `Vec` and viewed
as a map from names to values. The keys are resource names (string slices), and Verus proves
nothing about a std `HashMap` keyed by strings, so the tables are the library's own.

`tests/` holds the tests of the library.
