//! Automatic meeting detection for Google Meet, Microsoft Teams and Zoom.
//!
//! - [`signals`]: which meeting app looks like it is in a call right now.
//! - [`detector`]: the state machine that turns signals into confirmed meetings.
//! - [`monitor`]: what follows from polls, from the recorder's replies and from
//!   changes of the settings.
//! - [`settings`] and [`commands`]: the settings and the commands of the webview.
//! - [`clock`], [`time`] and [`text`]: wall clock, monotonic time and texts.
//! - [`laws`]: properties of the library as a whole.

pub mod clock;
pub mod commands;
pub mod detector;
pub mod laws;
pub mod monitor;
pub mod settings;
pub mod signals;
pub mod text;
pub mod time;
