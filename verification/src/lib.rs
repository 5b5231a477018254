//! Decision logic of a desktop notification daemon: battery reports,
//! network status lines and device hot-plug events become notification
//! requests and log lines.

pub mod battery;
pub mod dbus;
pub mod device;
pub mod listener;
pub mod network;
pub mod udev;
pub mod notification;
pub mod text;
