//! Keeps a user-chosen audio input device pinned as the system default input.
//!
//! The library holds the logic of the enforcement pipeline: the device
//! directory (enumeration filtering and UID resolution), the change-event
//! mapping, the debounce model for bursts of notifications, and the lock
//! controller with its self-suppression rule. The host audio subsystem is
//! reached through the [`host::AudioHost`] capability trait; an in-memory
//! host in [`sim`] exercises the same code without the real subsystem.

pub mod audio_manager;
pub mod audio_sys;
pub mod config;
pub mod controller;
pub mod debounce;
pub mod device_watcher;
pub mod host;
pub mod sim;
