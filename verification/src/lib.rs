//! A small command-line reporting tool, as a verified library.
//!
//! Amounts are fixed-point numbers counted in hundredths, so that sums are
//! exact and every rendering rule can be stated over integers.

pub mod aggregate;
pub mod clock;
pub mod command;
pub mod decimal;
pub mod record;
pub mod report;
pub mod summary;
