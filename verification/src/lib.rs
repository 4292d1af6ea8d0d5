//! Verified core of the Wara self-hosted application platform backend:
//! deploy commands, migration planning and checksums, key fingerprints,
//! request rules, and the records and decisions of the project services.

pub mod docker;
pub mod entities;
pub mod errors;
pub mod external;
pub mod hashing;
pub mod migrations;
pub mod queues;
pub mod requests;
pub mod ssh;
pub mod telemetry;
pub mod templates;
pub mod text;
pub mod users;
pub mod validation;
