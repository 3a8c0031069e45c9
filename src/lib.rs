//! Tracking of food and utility buffs on squad members, driven by a stream of
//! combat events, with reminders for the local player.

pub mod buff;
pub mod entry;
pub mod tracker;
pub mod reminder;
pub mod event;
pub mod plugin;
pub mod log;
