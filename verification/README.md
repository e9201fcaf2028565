# ferron

The decisions of a real-time Vulkan renderer, verified with Verus.

A renderer is mostly decisions: which passes a frame runs and what each of them
reads and writes, where one submission waits for another, how recording is shared
between workers, which images are kept when the frame changes shape, what the
surface honours of what was asked for. Here those decisions are functions on plain
values, each with a contract, and the promises that span several of them are proof
functions.

## Layout

`src/` is the library.

| Modules | What they decide |
| --- | --- |
| `frame`, `rendering`, `recording`, `passes`, `draws`, `pipelines` | What a frame records: targets, barriers, dispatches, draws and the state they run in |
| `renderer`, `steps`, `submission`, `swapchain`, `parallel`, `timestamps` | The frame loop: the order of its steps, configuration, semaphores, presentation, worker shares, GPU timing |
| `resources`, `assets`, `transitions`, `extents`, `occlusion` | Images: allocation, aliasing, handles, layouts, pyramids |
| `vendor`, `pipeline_cache`, `settings`, `culling` | The device's memory shape, the cache on disk, switches and counters |
| `library`, `scene`, `showcase`, `scene_choice`, `stress`, `textures` | The demo assets, the scenes built from them, the profiling load, procedural maps |
| `text` | Trimming, comparing and writing numbers |

`tests/` runs the library. `app/` is ordinary Rust around it: the frame loop over a
device, the library's values as the device's types, the files, the environment, and
what is measured in floating point, which the library holds as whole numbers of
thousandths or ten-thousandths. It is a crate of parts, not a program: opening a
window, compiling shaders and recording commands are left to whoever brings the
device.

## What is trusted

One call leaves the library: decoding a picture, through the `image` crate. Its
result has a name, and what the library does with it is stated over that name.
