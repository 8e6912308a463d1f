//! The typed requests and results of the service-discovery operations.
pub mod query_flags;
pub mod query_record;
pub mod records;
