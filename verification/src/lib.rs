//! A reverse proxy's decisions for one fixed upstream site: which URL a request
//! goes to, which headers travel in either direction, and how a response body
//! is handed back.

pub mod headers;
pub mod relay;
pub mod resolve;
pub mod target;
pub mod text;
pub mod upstream;
pub mod worker;
