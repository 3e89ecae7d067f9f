//! An attendance registry kept in the instance storage of a Soroban contract.
//!
//! The registry records, for a user and an event, that the user was present,
//! and keeps running totals of attendees and of registered events. Every
//! operation is one transition of a small state machine, [`model::Registry`],
//! and the contract of every operation says which transition it makes.

pub mod contract;
pub mod host;
pub mod laws;
pub mod model;
pub mod types;

pub use crate::contract::AttendanceContract;
pub use crate::types::AttendanceBook;
pub use crate::types::AttendanceRecord;
pub use crate::types::AttendanceStats;
