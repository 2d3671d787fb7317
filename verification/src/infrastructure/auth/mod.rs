//! The credential stores: where they keep the key, and how the outcome of each
//! keychain or disk operation is read.
pub mod file_store;
pub mod keyring_store;
