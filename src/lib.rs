//! Typed operations over a blockchain-data REST API: a registry of operation
//! shapes, a query builder that turns a parameter bundle into an upstream
//! query, and the classification of upstream responses.

pub mod bundle;
pub mod dispatch;
pub mod failure;
pub mod laws;
pub mod query;
pub mod registry;
pub mod requests;
pub mod text;

pub use bundle::{ParamValue, RequestBundle};
pub use dispatch::{classify_parsed, classify_response, OutboundRequest, SolscanApi, UpstreamResult};
pub use failure::{Failure, FailureKind};
pub use query::{build_query, decode_query, UpstreamQuery};
pub use registry::{lookup, Base, OperationSpec, ParamSpec, ValueKind};
pub use requests::ChainInfoRequest;
