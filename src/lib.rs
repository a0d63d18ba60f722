//! A proof-of-existence claims registry: authenticated callers register,
//! revoke and transfer ownership of content fingerprints.
pub mod claim;
pub mod laws;
pub mod registry;
pub mod store;
