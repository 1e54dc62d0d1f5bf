//! Signing of transactions for several chains through interchangeable signer
//! backends, with a per-task registry of the active signer.

pub mod capability;
pub mod chain;
pub mod context;
pub mod error;
pub mod outside;
pub mod privy;
pub mod venue;
