//! Verified export of BRC20 inscription histories.
//!
//! The library normalizes raw explorer-API transaction records into a
//! strongly typed domain model, drives the page-by-page walk over the API's
//! pagination counters, and projects the result onto a fixed CSV schema.
//! Everything that interprets data is specified and verified here; the thin
//! I/O shell (HTTP, JSON decoding, file writing) lives outside the library.

pub mod amount;
pub mod csv_row;
pub mod datetime;
pub mod digits;
pub mod domain;
pub mod normalize;
pub mod strutil;
pub mod walk;
