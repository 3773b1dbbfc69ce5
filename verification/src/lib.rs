//! Verified cores of two kernel capsules: the system-call driver of a packet
//! radio and the application layer of the signbus.
//!
//! Neither capsule touches hardware or the layer below it. Every entry point
//! takes what the outside reported as plain values and returns what the
//! caller has to do next.

pub mod radio;
pub mod radio_laws;
pub mod radio_model;
pub mod returncode;
pub mod signbus_app_layer;
