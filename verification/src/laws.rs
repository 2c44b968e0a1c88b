//! Properties of the library as a whole.

pub mod time;
pub mod text;
pub mod clock;
pub mod views;
pub mod settings;
pub mod signals;
pub mod detector;
pub mod commands;
pub mod monitor;
pub mod replies;
