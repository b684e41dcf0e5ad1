//! Client-side logic for running image-generation jobs on a remote backend,
//! together with the usage accounting that prices the results.
//!
//! The functions of this crate are verified against their contracts. The few
//! calls into other crates (`serde_json`, `url`, `uuid`) stand in small
//! wrappers whose contracts are believed; each says so. The network itself
//! stays outside: callers perform the requests and hand the bodies and frames
//! they receive to the functions here.

pub mod client;
pub mod completion;
pub mod cost;
pub mod error;
pub mod event;
pub mod fetch;
pub mod history;
pub mod job;
pub mod json;
pub mod listener;
pub mod media;
pub mod models;
pub mod pricing;
pub mod reply;
pub mod results;
pub mod routing;
pub mod structs;
pub mod submit;
pub mod text;
