//! Decision logic of a small URL-shortening redirect service.
//!
//! The library decides; the host program performs the input and output
//! (reading the passcode, looking up or writing mappings) and hands the
//! results back as plain values.
pub mod auth;
pub mod create;
pub mod ident;
pub mod laws;
pub mod reply;
pub mod router;
