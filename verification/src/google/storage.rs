//! The storage service.

pub mod v1;
