//! Wire-protocol engine of an interactive kernel: HMAC signing, multipart
//! framing, the per-request handler and the request loop's state machine,
//! together with the small integer expression language that the kernel
//! evaluates and the schema and configuration types of a columnar store.
pub mod signature;
pub mod parser;
pub mod errors;
pub mod evaluator;
pub mod codec;
pub mod display;
pub mod session;
pub mod handler;
pub mod protocol;
pub mod connection;
pub mod store_config;
pub mod schema;
