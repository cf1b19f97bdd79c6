//! Core logic of a censorship-resistant connectivity client.
//!
//! The library establishes a secure channel through a chain of progressively
//! more evasive transports, keeps custody of the symmetric session keys in a
//! vault that supports destructive rotation, and gates an emergency wipe of
//! that vault behind a biometric proof.  Network and filesystem side effects
//! are performed by the surrounding application; this crate holds the
//! decisions and the data they are made over, with machine-checked contracts.

pub mod biometric;
pub mod codes;
pub mod config;
pub mod decimal;
pub mod fronting;
pub mod obfuscation;
pub mod orchestrator;
pub mod overlay;
pub mod tunnel;
pub mod vault;
pub mod wipe;
