//! Core of a desktop system monitor: the reactive controller that turns
//! timer ticks, user intents and completed background work into state
//! changes and requests for further background work.

pub mod app;
pub mod decimal;
pub mod kill;
pub mod process;
pub mod settings;
pub mod status;
