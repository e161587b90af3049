# mycelium

An audio-reactive visual engine: audio in, shaders out. The crate is split in
two.

`src/` is the library, written in Verus and verified. It holds the engine's
decisions and data structures, each with a contract:

| Module | What it holds |
|--------|---------------|
| `config` | window, FFT, MSAA, scripting and I/O settings |
| `event` | control and bus events and their render-loop priority |
| `bus` | the triple buffer for audio frames, the priority order of bus events, the plugin bus over a crossbeam channel |
| `ring` | sample ring buffers, single-threaded and shared |
| `mapping` | routing of evaluated mappings onto shader parameters |
| `midi` | decoding of MIDI messages |
| `gamepad` | mapping of gamepad axes and buttons onto control events |
| `osc` | mapping of OSC addresses and bundles onto control events |
| `overlay` | shader navigation by keys, controllers, auto-cycle and GUI |
| `registry` | the shader registry and the built-in shaders |
| `reload` | the all-or-nothing hot reload of shader files, checked with naga |

`app/` is the program around it: the window and GPU (winit, wgpu, egui), audio
capture and FFT analysis, MIDI, OSC and gamepad input, Lua scripting, TOML
configuration and presets, and file watching. It hands the library plain
values and acts on what comes back.

The shared audio buffer and the shared sample ring guard their state with
vstd's verified `RwLock` rather than with atomics, and a drain collects the
pending events into a fresh vector before ordering them into the caller's
buffer; what a read or a drain returns is the same as with a lock-free buffer,
but neither is lock-free or free of allocation.

`tests/` runs the library against its outside crates.
