//! A client library for the Base Adresse Nationale (BAN), the French national
//! address database: forward geocoding (address text to coordinates) and
//! reverse geocoding (coordinates to address labels).
//!
//! The library builds request URLs from typed query builders and turns what
//! the service answered into typed results or errors. Performing the HTTP
//! exchange and decoding JSON bodies is left to the caller.

pub mod client;
pub mod degrees;
pub mod geocode;
pub mod params;
pub mod reverse;
pub mod text;
pub mod transport;
pub mod types;
