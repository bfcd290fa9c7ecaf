//! Countdown-day ("倒数日") event manager for the AstroBox band: the form
//! state, its validation rules, the exchange with the band app and the UI tree.

pub mod date;
pub mod element;
pub mod events;
pub mod flow;
pub mod json;
pub mod laws;
pub mod names;
pub mod state;
pub mod text;
pub mod ui;
