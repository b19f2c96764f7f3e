//! Discovery and verification of a single MYLAPS X2 timing appliance.
//!
//! The crate holds the rules of a verification run: how the appliance record
//! is decoded, how the one-shot result is published, and how the waiting loop
//! decides between completion and timeout. The service calls themselves are
//! made by the program around it.

pub mod bridge;
pub mod descriptor;
pub mod error;
pub mod hostname;
pub mod session;
pub mod shared;
pub mod text;
pub mod verification;
pub mod version;
