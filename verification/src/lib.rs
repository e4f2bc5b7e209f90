//! Presence-update engine: turns successive listening-session snapshots into
//! play/pause verdicts, extrapolated positions, artwork lookups and presence
//! payloads. All I/O stays with the caller; every function here works on
//! plain values and carries a contract that Verus proves.

pub mod cache;
pub mod caption;
pub mod chapter;
pub mod cover;
pub mod endpoints;
pub mod poll;
pub mod presence;
pub mod session;
pub mod text;
pub mod tick;
pub mod title;
pub mod tracker;
