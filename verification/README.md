# meditamer

Firmware logic for a 600x600 e-paper meditation device (Inkplate 4 TEMPERA),
written in Verus: the behaviour of each function is stated in `requires` /
`ensures` contracts and proved.

## Layout

- `src/` — the verified library.
  - `touch/` — the touch calibration wizard: four-corner calibration, the
    precision test, guided swipe cases, and the state machine that drives
    them from touch events.
  - `shell/` — the UI shell model: provider and surface registry,
    navigation stack, overlay composition (live overlays and the modal
    queue), the compiled catalogue, intent and callback-action queues,
    generation-checked callback routes, and the laws the model keeps
    (`shell_laws.rs`).
  - `ui/` — the panel side: dirty-region tracking and the 1-bit blitter,
    the callback bridge, gesture queue, the ambient home screen's schedule
    and timing, and the decisions the display backend takes around surface
    transitions, overlays, settings and cleanup retries.
  - `graphics.rs` — dithering thresholds, hashing and the seeded generator
    of the marbling renderer, and 4-bit gray packing.
  - `marbling.rs` — 16.16 fixed-point arithmetic, the marbling scene (its
    ink drops, swirls and flow combs, held in `heapless`'s bounded vector)
    and the seeded scene generator.
  - `shader.rs` — the marbling shader in 16.16 fixed point: each step a
    partial function that fails exactly where the fixed-point arithmetic
    would panic; the gray, 4-bit level and black-or-white of a pixel.
  - `render.rs` — the black pixels of a block of rows (optionally masked)
    and of a seeded scene, row by row, and the seeded scene packed into a
    4-bit gray framebuffer.
  - `update.rs` — boot-slot bookkeeping: the two redundant `otadata`
    records, the partition layout check and the boot-time decisions.
  - `settings/` — Wi-Fi runtime policy and the tuning values read from the
    build configuration.
  - `hal.rs` — GPIO register images and the frontlight command.
- `tests/` — tests of the library on concrete values.
- `app/` — what stays outside the verified library: floating-point
  geometry, drawing the marbling renderer's pixels and the calibration
  wizard, and build configuration lookup.
