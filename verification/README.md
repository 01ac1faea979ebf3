# Beans Engine

A small Vulkan renderer that loads glTF 2.0 scenes.

`src/` is the verified core, checked with Verus:

- `enums`, `document`, `float`, `error`: the glTF document model;
- `validate`, `rules`, `version`, `iri`: the format's rules and the checks a
  document must pass when it is loaded;
- `deserialize`, `buffer_source`: decoding enumerations and URIs, and where each
  buffer's bytes come from;
- `geometry`, `mesh_data`, `primitive`, `scene`: reading indices and vertex
  data out of buffers, and loading the default scene node by node;
- `vulkan`, `texture`, `input`: the renderer's decisions (device, queues,
  swapchain, layouts, frame pacing), texture uploads and keyboard controls.

`app/` is the program around it: the window, the Vulkan calls, JSON parsing,
file reading, the camera and everything else in floating point.
