//! Bstore: a content-addressed blob store.
//!
//! The library holds the storage rules and the decisions of the server:
//! the model of the two relations and what each write does to them
//! (`store`, `laws`), the write transactions as state machines driven by
//! the caller's database handle (`protocol`, `soundness`), fingerprints,
//! the request body collector, zip extraction, download replies and
//! chunking, the status rules of the HTTP surface, and the client's URL
//! builder.

pub mod archive;
pub mod collector;
pub mod domain;
pub mod file_reply;
pub mod fingerprint;
pub mod http;
pub mod laws;
pub mod protocol;
pub mod reader_stream;
pub mod resource;
pub mod soundness;
pub mod store;
