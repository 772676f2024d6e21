//! Decision logic of an internet connectivity alarm.
//!
//! A monitor probes one remote address over and over from a background task
//! and publishes the latest verdict; the watcher counts the monitors that
//! report a connection and sounds an alarm when none does. The threads, the
//! echo requests, the shared flag and the audio live with the caller: this
//! crate decides what each of them does next.
pub mod poll;
pub mod settings;
pub mod watch;
