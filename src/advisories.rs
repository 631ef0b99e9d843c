//! The first bindings of the advisory endpoints.

pub mod bsa;
pub mod count;
