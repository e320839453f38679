//! Daily biometric summaries from a wearable ring: calendar-day handling,
//! request planning for the remote collection endpoints, joining of per-day
//! series, and the text of the terminal reports.

pub mod calendar;
pub mod client;
pub mod command;
pub mod dates;
pub mod display;
pub mod error;
pub mod models;
pub mod rounding;
pub mod style;
pub mod text;
pub mod trend;
pub mod window;
