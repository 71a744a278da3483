//! Runtime and build-time configuration: Wi-Fi recovery policy and the
//! decimal overrides of the upload path.
pub mod tuning;
pub mod wifi;
