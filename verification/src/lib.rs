//! Presence tracking for one configured peripheral.
//!
//! The daemon built on this library watches for one device, named by its
//! vendor and product numbers on the USB bus or by a byte pattern on a serial
//! link, and fires an external action whenever the device comes or goes. The
//! library holds the decisions: which identity a configured text names, what
//! the device cache holds after each event, which hook an event asks for,
//! which command a hook stands for, and which failures end the daemon. The
//! waiting, reading and spawning are the caller's.

pub mod app;
pub mod cache;
pub mod command;
pub mod config;
pub mod device_manager;
pub mod fatal;
pub mod identity;
pub mod presence;
pub mod report;
pub mod serial;
pub mod text;
