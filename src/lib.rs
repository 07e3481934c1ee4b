//! A counter record that one instruction creates on first use and then
//! advances twice per call, reporting each new value as an event.
mod clock;
pub mod counter;
pub mod history;
