//! Field masks, which travel in the query string and never in a body.

use crate::google::protobuf::FieldMask;
use vstd::prelude::*;

verus! {

/// What a body holds in place of a field mask: nothing, whatever the mask.
pub fn serialize(_value: &Option<FieldMask>) -> (written: Option<String>)
    ensures
        written is None,
{
    None
}

/// The field mask that a body gives: none, whatever the body holds in its place.
pub fn deserialize(_written: Option<&str>) -> (value: Option<FieldMask>)
    ensures
        value is None,
{
    None
}

} // verus!
