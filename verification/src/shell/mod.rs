//! The UI shell's value types, callback routing, launch catalogue and
//! intent queues.
pub mod types;
pub mod callback_routes;
pub mod intent_queue;
pub mod callback_action_queue;
pub mod catalogue;
pub mod registry;
pub mod navigator;
pub mod composition;
pub mod model;
pub mod shell_laws;
