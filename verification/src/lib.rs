//! Control layer of a multi-network node.
//!
//! The crate decides which network profile a loaded descriptor belongs to,
//! which services an administrative command needs and in which order they are
//! built and torn down, and it keeps the table that gives every chain
//! extension its stable numeric identifier.

pub mod chain_extensions;
pub mod command;
pub mod descriptor;
pub mod error;
pub mod identify;
pub mod loader;
pub mod registry;
pub mod router;
pub mod text;
pub mod variant;
