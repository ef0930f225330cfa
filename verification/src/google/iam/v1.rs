//! Policies and the requests that read, replace and probe them.

use vstd::prelude::*;

verus! {

/// The members that hold one role.
#[derive(Clone, Debug, Default, PartialEq, Eq)]
pub struct Binding {
    pub role: String,
    pub members: Vec<String>,
}

/// Who may do what on a resource.
#[derive(Clone, Debug, Default, PartialEq, Eq)]
pub struct Policy {
    pub version: i32,
    pub bindings: Vec<Binding>,
    pub etag: Vec<u8>,
}

/// How a policy is to be read.
#[derive(Clone, Copy, Debug, Default, PartialEq, Eq)]
pub struct GetPolicyOptions {
    pub requested_policy_version: i32,
}

/// Asks for the policy of a resource.
#[derive(Clone, Debug, Default, PartialEq, Eq)]
pub struct GetIamPolicyRequest {
    pub resource: String,
    pub options: Option<GetPolicyOptions>,
}

/// Replaces the policy of a resource.
#[derive(Clone, Debug, Default, PartialEq, Eq)]
pub struct SetIamPolicyRequest {
    pub resource: String,
    pub policy: Option<Policy>,
}

/// Asks which of a set of permissions the caller holds on a resource.
#[derive(Clone, Debug, Default, PartialEq, Eq)]
pub struct TestIamPermissionsRequest {
    pub resource: String,
    pub permissions: Vec<String>,
}

/// The permissions, of those asked about, that the caller holds.
#[derive(Clone, Debug, Default, PartialEq, Eq)]
pub struct TestIamPermissionsResponse {
    pub permissions: Vec<String>,
}

} // verus!
