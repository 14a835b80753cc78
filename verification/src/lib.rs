//! A small scheduled data-collection pipeline: it reads API credentials
//! from a local token file, fetches the current room temperature from a
//! home-sensor API — and, in its dual-reading mode, the current outdoor
//! temperature from a weather API — and appends the reading(s) to a
//! local database table.
//!
//! The crate holds the pipeline's whole policy as verified code: how the
//! token file and the response bodies are understood, how the request
//! strings are built, and the run's linear, fail-fast sequencing. The
//! caller performs the outside steps (reading the file, the HTTP calls,
//! the insert) and feeds each outcome back as an event; see [`run`].

pub mod config;
pub mod creds;
pub mod fetch;
pub mod json;
pub mod parse;
pub mod run;
