//! Panel-side pieces of the LVGL user interface: the 1-bit blitter, dirty
//! region tracking, callback signals and small lookup tables.
pub mod ambient;
pub mod ambient_home;
pub mod dither;
pub mod gesture;
pub mod io;
pub mod intent_bridge;
pub mod navigation_flow;
pub mod overlay_flow;
pub mod settlement;
