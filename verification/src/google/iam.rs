//! Identity and access management.

pub mod v1;
