//! A dynamic DNS updater's decisions: reading the public address, choosing
//! credentials, building the record update and reporting what came of it.

pub mod error;
pub mod address;
pub mod interval;
pub mod config;
pub mod update;
