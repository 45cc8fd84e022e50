//! Host-side core for running short-lived untrusted JavaScript functions in
//! per-thread sandboxed execution contexts ("isolates").
//!
//! The crate models the request/response bridge between an asynchronous host
//! and the thread owning an isolate (`client` and `wire`), the per-evaluation
//! session that installs and tears down engine-level callbacks (`session`),
//! and the bookkeeping around it: metric events, index metadata conversions,
//! backend state, streaming-export helpers, and the JSON form of inferred
//! value shapes.

pub mod backend_state;
pub mod client;
pub mod document_id;
pub mod index_config;
pub mod metrics;
pub mod proto_build;
pub mod session;
pub mod shape_json;
pub mod streaming_export;
pub mod test_facing;
pub mod text_index;
pub mod transaction;
pub mod values;
pub mod wire;
