//! Conversions between field values and the forms they take in JSON bodies.

pub mod into_string;
pub mod optional_crc32c;
pub mod optional_field_mask;
pub mod optional_timestamp;

use crate::query::QueryValue;
use vstd::prelude::*;

verus! {

/// Whether `value` is the default of its type, and so need not be written.
pub fn is_default<T: QueryValue>(value: &T) -> (unset: bool)
    ensures
        unset == value.is_unset(),
{
    value.is_default()
}

} // verus!
