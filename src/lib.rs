//! Reconciliation and deduplication core of a mod-file synchronizer: the
//! upload-side three-way diff, the download-side reconciler, the authoritative
//! store's record rules and the content-addressed blob protocol.

pub mod api;
pub mod client;
pub mod digest;
pub mod models;
pub mod scan;
pub mod server;
pub mod store;
pub mod sync;
pub mod text;
pub mod types;
