//! Touch input events and the calibration / swipe-diagnostic wizard.
pub mod event;
pub mod wizard;
pub mod geometry;
pub mod calibration;
pub mod swipe;
pub mod layout;
pub mod flow;
pub mod swipe_event;
pub mod events;
