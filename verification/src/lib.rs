//! Parking sessions from check-in to check-out, and the fee that a tariff
//! policy asks for a stay.

pub mod domain;
pub mod time;
pub mod usecases;
