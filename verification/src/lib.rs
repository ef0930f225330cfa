//! Request construction and response classification for the Cloud Storage JSON API.
//!
//! The crate turns typed request values into a method, a target URL and an ordered
//! list of query parameters, classifies what came back, and steps through paginated
//! listings. Network transport is left to the caller.

pub mod bucket;
pub mod bucket_access_control;
pub mod client;
pub mod constants;
pub mod default_object_access_control;
pub mod encode;
pub mod error;
pub mod google;
pub mod headers;
pub mod hmac_key;
pub mod iam;
pub mod json;
pub mod notifications;
pub mod object;
pub mod object_access_control;
pub mod paginate;
pub mod query;
pub mod request;
pub mod serde;
pub mod text;
pub mod urls;

pub use crate::client::{Client, ClientBuilder};
pub use crate::error::Error;
pub use crate::headers::Headers;
