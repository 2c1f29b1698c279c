# buoyant_esp32p4

A verified planner for [Buoyant](https://github.com/riley-williams/buoyant)
render targets on the ESP32-P4, whose Pixel Processing Accelerator (PPA) does
solid fills, image blits and layer composition in hardware.

- `src/` is the library, verified with Verus. It decides what the driver is
  asked to do and what its answers amount to; it touches no hardware.
  - `ppa::driver`: driver calls, and transactions that make them in order until
    one fails.
  - `ppa::client`, `ppa::psram`, `ppa::cache`: client registration, aligned
    buffers, cache synchronisation.
  - `ppa::fill`, `ppa::srm`: fills and scaled blits of a framebuffer.
  - `ppa::draw`: which solid fills go to the accelerator, and the fallback to
    software.
  - `ppa::coherence`: why the planned calls keep the CPU's cache and memory in
    step.
  - `layer`: how a Buoyant layer is probed, set up, drawn and blended;
    `layer::fidelity`: why it is the layer that the view asked for;
    `layer::nesting`: why scratch layers come in pairs, however layers nest.
  - `geometry`: sizes and rectangles.
- `app/` performs the plans: the ESP-IDF driver calls, the `embedded-graphics`
  and Buoyant trait implementations.
- `tests/` runs the library, with the real `buoyant` and `embedded-graphics`.

Addresses and driver handles are plain integers in the library. A framebuffer
starts on a 64-byte cache line; whoever binds one vouches for its memory.
