//! Global keyboard shortcuts: which combo belongs to which binding, how a
//! binding is registered with the operating system, and how the settings
//! screen captures a new combo.

pub mod handy_keys;
pub mod recording;
pub mod registry;
