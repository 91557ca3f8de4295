//! Glue between gRPC services and HTTP routers: the routing decisions of the
//! company-info service, the route under which a named gRPC service is nested,
//! the merge of response heads, and the status wrapper used by middleware.
pub mod comp_info;
pub mod headers;
pub mod nest;
pub mod proto;
pub mod status;

pub use status::GrpcStatus;
