//! Verified core logic of the Meditamer e-paper firmware: the touch
//! calibration and swipe-diagnostic wizard, the UI shell (registry,
//! navigation, overlay composition, callback routing, launch catalogue and
//! intent queues), the display backend's decisions around transitions and
//! cleanups, the panel blitter, the marbling scene, its seeded generator,
//! its fixed-point shader and renderer, runtime policy clamping, the
//! ambient home screen's schedule and timing, and the boot-slot
//! bookkeeping.
pub mod arith;
pub mod graphics;
pub mod hal;
pub mod touch;
pub mod shell;
pub mod ui;
pub mod settings;
pub mod update;
pub mod marbling;
pub mod shader;
pub mod render;
