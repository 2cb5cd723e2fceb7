# virtio_gpu

The device side of a virtio GPU, verified with Verus: resources, scanouts,
fences, plain 2D buffers and blobs, and how each guest command is answered.

- `src/device.rs` holds the device, `src/model.rs` its state as a value and what
  commands make of it, and `src/laws.rs` what holds across commands.
- `src/fence.rs`, `src/flush.rs`, `src/scanout.rs`, `src/pixels.rs` and
  `src/blob.rs` are the parts that need no renderer.
- `src/contexts.rs` says what the contexts of the renderer can be asked for.
- `src/renderer.rs` and `src/guest_memory.rs` are the boundaries to
  `rutabaga_gfx` and `vm-memory`, and `src/config.rs` has the renderer built.
  Every function there that is not proved makes one call and says in its comment
  what is taken for granted of it.
- `app/` connects the device to a display, a virtqueue and the memory map of the
  host.
- `tests/` runs the device against renderers that need no driver and real guest
  memory.

A command that needs the display or the memory map comes in two parts: the first
returns what is to be done, the second takes in how it went.
