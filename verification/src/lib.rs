//! A small client library for a current-weather HTTP API: unit systems,
//! request-URL construction, extraction of the fixed-shape JSON response,
//! and rendering of the human-readable report.

pub mod jsonval;
pub mod render;
pub mod report;
pub mod request;
pub mod strutil;
pub mod units;
