//! Request pipeline of an S3-compatible gateway: Signature V4 verification,
//! repository resolution, backend key rewriting and S3 protocol decisions.
pub mod backend;
pub mod canonical;
pub mod digest;
pub mod encoding;
pub mod errors;
pub mod http;
pub mod listing;
pub mod model;
pub mod request;
pub mod resolve;
pub mod sigv4;
pub mod text;
