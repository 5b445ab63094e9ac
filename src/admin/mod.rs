//! The management REST API: endpoint addresses, request headers and the
//! decisions taken around the calls.

pub mod admin;
pub mod clusters;
pub mod error;
pub mod functions;
pub mod namespaces;
pub mod sinks;
pub mod tenants;
pub mod topics;
