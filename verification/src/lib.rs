//! A stateless HTTP handler that answers `GET /qr.png?url=<u>` with a PNG
//! image of the QR code for `<u>`.
//!
//! The crate holds the decisions of the handler: routing, reading the `url`
//! parameter out of the query string, the length limit, how a symbol becomes
//! a raster, and which response each outcome gets. Reading the request from
//! the network and writing the response to it are left to the caller.

pub mod handler;
pub mod http;
pub mod png;
pub mod query;
pub mod raster;
pub mod symbol;
pub mod text;
