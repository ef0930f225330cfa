//! Well-known message types.

use vstd::prelude::*;

verus! {

/// A point in time: seconds since the Unix epoch and the nanoseconds beyond them.
#[derive(Clone, Copy, Debug, Default, PartialEq, Eq, Structural)]
pub struct Timestamp {
    pub seconds: i64,
    pub nanos: i32,
}

/// The fields of a resource that a response is to carry.
#[derive(Debug, Default, PartialEq, Eq)]
pub struct FieldMask {
    pub paths: Vec<String>,
}

impl FieldMask {
    /// Whether the two name the same paths in the same order.
    pub open spec fn same(&self, other: &Self) -> bool {
        &&& self.paths@.len() == other.paths@.len()
        &&& forall|i: int| 0 <= i < self.paths@.len() ==> self.paths@[i]@ == other.paths@[i]@
    }
}

impl Clone for FieldMask {
    fn clone(&self) -> (copy: Self)
        ensures
            copy.same(self),
    {
        let mut paths: Vec<String> = Vec::new();
        let mut i: usize = 0;
        while i < self.paths.len()
            invariant
                i <= self.paths.len(),
                paths@.len() == i,
                forall|k: int| 0 <= k < i ==> paths@[k]@ == self.paths@[k]@,
            decreases self.paths.len() - i,
        {
            paths.push(self.paths[i].clone());
            i += 1;
        }
        FieldMask { paths }
    }
}

} // verus!
