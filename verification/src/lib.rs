//! Local-user authentication and host-environment bootstrap.
//!
//! The credential store keeps users with salted one-way digests and unique
//! usernames, and answers registration, login and listing with contracts
//! over its row model. The bootstrap side carries the edition probe, the
//! conditional runtime installation and the provisioning of a database
//! container as state machines whose decisions are verified; the host's
//! shell, network and clock stay with the drivers that consume them.

pub mod auth;
pub mod database;
pub mod hashing;
pub mod installer;
pub mod orchestrator;
pub mod provision;
pub mod setup;
pub mod text;
