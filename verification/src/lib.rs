//! DNS service discovery as a verified functional core.
//!
//! The native service-discovery subsystem talks through callbacks, raw
//! buffers and bit flags.  This crate holds everything that decides or
//! computes on the way between that subsystem and a consumer: the flag sets,
//! the decoding of a reply into a typed result, the buffered result stream,
//! and the lifecycle of registered records.  Each item carries a contract
//! that Verus proves.
pub mod bits;
pub mod channel;
pub mod cstr;
pub mod error;
pub mod interface;
pub mod native;
pub mod raw;
pub mod service;
pub mod stream;
