# sierra

Core of a Vulkan-oriented graphics library: the data model (formats, extents, usage and
stage flags, descriptor layouts, acceleration-structure instance packing), the bookkeeping
that the device backend runs on (resource cache with epoch-based eviction, per-queue epochs
of submitted command buffers and the resources they reference, requested device features
and the extensions and feature structures they need, descriptor pool sizes, sparse
descriptor slots, render-pass attachment references, shader binding table layout), the
decisions taken before driver calls (swapchain parameters, ray tracing shader groups,
uploads and staging buffers, dynamic pipeline states, SPIR-V module checks), command recording, and GLSL declaration splicing.

Every function in `src/` is verified with Verus against a contract stated over
mathematical models (`Seq`, `Map`, integers). Vulkan values appear as plain integer codes
and bit masks; the tests check them against the constants of `erupt`.

Layout:

- `src/` — the verified library.
- `tests/` — executable tests of the library.
- `app/` — glue that is not verified: conversions of library values into `erupt`
  structures, the driver queries and calls around the library's plans (swapchain
  configuration, device extensions, writing recorded commands into a command buffer), the locked per-device epoch table and the
  process-wide resource counters.
