//! A focus/break session timer: the timer engine, the application's decision
//! logic, and the small encoders (clock text, chime WAV framing, tray icon
//! pixels) that the desktop front end hands to its toolkits.
pub mod app;
pub mod config;
pub mod events;
pub mod hotkeys;
pub mod icon;
pub mod laws;
pub mod text;
pub mod timer;
pub mod tray;
pub mod ui;
pub mod wav;
