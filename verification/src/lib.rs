//! Relays weather-station readings to two weather-reporting services.
//!
//! A reading arrives as a named record of fields, is narrowed to its numeric
//! fields, converted to the units the services expect, and turned into one
//! request per service; the replies are then folded into a single response.

pub mod config;
pub mod conversions;
pub mod handlers;
pub mod models;
pub mod reading;
pub mod status;
pub mod upload;
