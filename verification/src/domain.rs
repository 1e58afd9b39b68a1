//! The rules of parking: what a session is, how it ends, and what it costs.

pub mod error;
pub mod parking_session;
pub mod tariff_policy;
