//! Discord webhook message models, their builders, and a check of a message against
//! the limits of Discord's API.
pub mod interval;
pub mod limits;
pub mod models;
pub mod rules;
pub mod laws;
