//! Data exchanged with the repositories and credential stores. The stores and
//! repositories themselves talk to the network, the keychain and the disk, so the
//! library describes the calls to them as actions and takes their results back.
pub mod credential_store;
pub mod linear_api_client;
pub mod paging;
pub mod project_repository;
pub mod team_repository;
