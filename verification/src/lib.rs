//! User accounts: account records, custom attributes, password checks and
//! signed, time-bounded access tokens.
//!
//! Everything here works on plain values. Reading requests, talking to the
//! store and answering over HTTP is left to the program around this library.

pub mod attributes;
pub mod auth;
pub mod bearer;
pub mod ids;
pub mod password;
pub mod records;
pub mod token;
pub mod users;
