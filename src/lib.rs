//! Typed bindings for the BART (Bay Area Rapid Transit) public API: the
//! request URL of each endpoint, and the readers and writers of the codes,
//! numbers, dates and times that its responses carry.

pub mod advisories;
pub mod apis;
pub mod constants;
pub mod error;
pub mod text;
pub mod version;
