//! Client-side core of a completion relay: failure classification, the
//! line-delimited event decoder and its trailers, stream assembly, the
//! concurrency limiter and the request/retry decisions of one completion call.
pub mod assembly;
pub mod call;
pub mod errors;
pub mod events;
pub mod headers;
pub mod limiter;
pub mod request;
pub mod text;
