//! Runtime backbone of a desktop companion application: the entity store for
//! characters, personas and chat histories, the supervisor that sequences the
//! backend services, the health report, and the mapping of gateway replies.
//!
//! The library decides and computes on plain values; reading files, spawning
//! processes and talking HTTP are left to the program that embeds it.

pub mod failure;
pub mod gateway;
pub mod health;
pub mod history;
pub mod laws;
pub mod records;
pub mod status;
pub mod store;
pub mod supervisor;
pub mod text;
pub mod types;
