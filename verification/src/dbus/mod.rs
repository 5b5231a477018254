//! The D-Bus services the daemon talks to.

pub mod network_manager;
pub mod notifications;
