//! Event-interpretation core of a control daemon for handheld gaming
//! devices.
//!
//! The daemon around this library reads raw button events from a set of
//! kernel input devices and changes device state (brightness, volume,
//! wireless, power) by running small external programs.  Everything with
//! real state and timing lives here, as verified code: tracking the hotkey
//! modifier, dispatching chords through binding tables, recognizing timed
//! double presses of the power key, and driving the idle-timeout auto-dim
//! and auto-suspend transitions against the charging state.  The
//! surrounding process performs the blocking reads and the side effects
//! and feeds plain values in and out.

pub mod battery;
pub mod dispatch;
pub mod double_press;
pub mod engine;
pub mod event;
pub mod idle;
pub mod levels;
pub mod modifier;
pub mod parse;
pub mod sources;
