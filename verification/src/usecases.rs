//! The steps of check-in and check-out that lie between the calls to storage.

pub mod check_in;
pub mod check_out;
pub mod error;
