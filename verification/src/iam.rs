//! Requests on the IAM policy of buckets.

use crate::constants;
use crate::error::{Error, ErrorView};
use crate::google::iam::v1::{Policy, TestIamPermissionsResponse};
use crate::google::storage::v1::{
    GetIamPolicyRequest, SetIamPolicyRequest, TestIamPermissionsRequest,
};
use crate::query::{pairs, pairs_push, repeated, scalar, Pair, PushIf, Query};
use crate::request::{
    default_scope, default_scope_spec, no_headers, Method, Payload, Request, Scope,
};
use crate::urls::{bucket_spec, outcome, then_segment, Url, UrlView};
use vstd::prelude::*;
use vstd::string::*;

verus! {

/// The target of a request on the policy of the bucket `resource`; a request that
/// names no bucket has none.
pub open spec fn iam_url_spec(base: UrlView, resource: Option<Seq<char>>) -> Result<
    UrlView,
    ErrorView,
> {
    match resource {
        Some(bucket) => then_segment(bucket_spec(base, bucket), "iam"@),
        None => Err(ErrorView::Other("Expected iam_request field"@)),
    }
}

/// The target of a request on the policy of the bucket `resource`.
pub fn iam_url(base_url: Url, resource: Option<&str>) -> (path: Result<Url, Error>)
    ensures
        outcome(path) == iam_url_spec(
            base_url@,
            match resource {
                Some(bucket) => Some(bucket@),
                None => None,
            },
        ),
{
    match resource {
        Some(bucket) => base_url.bucket(bucket)?.join_segment("iam"),
        None => Err(Error::Other { source: String::from_str("Expected iam_request field") }),
    }
}

impl GetIamPolicyRequest {
    /// The bucket whose policy is asked for, where the request names one.
    pub open spec fn resource(&self) -> Option<Seq<char>> {
        match self.iam_request {
            Some(request) => Some(request.resource@),
            None => None,
        }
    }

    /// The policy version asked for; zero, the default, where the request names
    /// none.
    pub open spec fn requested_policy_version(&self) -> i32 {
        match self.iam_request {
            Some(request) => match request.options {
                Some(options) => options.requested_policy_version,
                None => 0,
            },
            None => 0,
        }
    }
}

impl Query for GetIamPolicyRequest {
    open spec fn query_spec(&self) -> Seq<Pair> {
        self.common_request_params.query_spec() + scalar(
            constants::OPTIONS_REQUESTED_POLICY_VERSION@,
            self.requested_policy_version(),
        )
    }

    open spec fn fixed_spec() -> Seq<Pair> {
        Seq::empty()
    }

    open spec fn spent(&self) -> bool {
        self.common_request_params is None && self.iam_request is None
    }

    open spec fn kept(&self, before: &Self) -> bool {
        true
    }

    fn request_query(&mut self) -> (query: Vec<(&'static str, String)>) {
        let mut query = self.common_request_params.request_query();
        let mut requested_policy_version: i32 = match self.iam_request.take() {
            Some(request) => match request.options {
                Some(options) => options.requested_policy_version,
                None => 0,
            },
            None => 0,
        };
        query.push_if(constants::OPTIONS_REQUESTED_POLICY_VERSION, &mut requested_policy_version);
        proof {
            assert(self.query_spec() =~= Self::fixed_spec());
        }
        query
    }
}

impl Request for GetIamPolicyRequest {
    type Response = Policy;

    open spec fn method_spec() -> Method {
        Method::Get
    }

    open spec fn scope_spec(&self) -> Seq<char> {
        default_scope_spec(Method::Get)
    }

    open spec fn path_spec(&self, base: UrlView) -> Result<UrlView, ErrorView> {
        iam_url_spec(base, self.resource())
    }

    open spec fn headers_spec(&self) -> Seq<Pair> {
        Seq::empty()
    }

    fn request_method() -> (method: Method) {
        Method::Get
    }

    fn request_headers(&self) -> (headers: Vec<(String, String)>) {
        no_headers()
    }

    fn scope(&self) -> (scope: &'static str) {
        default_scope(Method::Get)
    }

    fn request_path(&self, base_url: Url) -> (path: Result<Url, Error>) {
        match &self.iam_request {
            Some(request) => iam_url(base_url, Some(request.resource.as_str())),
            None => iam_url(base_url, None),
        }
    }
}

impl SetIamPolicyRequest {
    /// The bucket whose policy is replaced, where the request names one.
    pub open spec fn resource(&self) -> Option<Seq<char>> {
        match self.iam_request {
            Some(request) => Some(request.resource@),
            None => None,
        }
    }
}

impl Query for SetIamPolicyRequest {
    open spec fn query_spec(&self) -> Seq<Pair> {
        self.common_request_params.query_spec()
    }

    open spec fn fixed_spec() -> Seq<Pair> {
        Seq::empty()
    }

    open spec fn spent(&self) -> bool {
        self.common_request_params is None
    }

    open spec fn kept(&self, before: &Self) -> bool {
        self.iam_request == before.iam_request
    }

    fn request_query(&mut self) -> (query: Vec<(&'static str, String)>) {
        self.common_request_params.request_query()
    }
}

impl Request for SetIamPolicyRequest {
    type Response = Policy;

    open spec fn method_spec() -> Method {
        Method::Put
    }

    open spec fn scope_spec(&self) -> Seq<char> {
        Scope::FULL_CONTROL@
    }

    open spec fn path_spec(&self, base: UrlView) -> Result<UrlView, ErrorView> {
        iam_url_spec(base, self.resource())
    }

    open spec fn headers_spec(&self) -> Seq<Pair> {
        Seq::empty()
    }

    fn request_method() -> (method: Method) {
        Method::Put
    }

    fn request_headers(&self) -> (headers: Vec<(String, String)>) {
        no_headers()
    }

    fn scope(&self) -> (scope: &'static str) {
        Scope::FULL_CONTROL
    }

    fn request_path(&self, base_url: Url) -> (path: Result<Url, Error>) {
        match &self.iam_request {
            Some(request) => iam_url(base_url, Some(request.resource.as_str())),
            None => iam_url(base_url, None),
        }
    }
}

impl Payload for SetIamPolicyRequest {
    type Body = Policy;

    open spec fn body_spec(&self) -> Option<Self::Body> {
        match self.iam_request {
            Some(request) => request.policy,
            None => None,
        }
    }

    fn take_body(&mut self) -> (body: Option<Self::Body>)
        ensures
            final(self).resource() == old(self).resource(),
            final(self).common_request_params == old(self).common_request_params,
    {
        match self.iam_request.take() {
            Some(mut request) => {
                let policy = request.policy.take();
                self.iam_request = Some(request);
                policy
            },
            None => None,
        }
    }
}

impl TestIamPermissionsRequest {
    /// The bucket that is asked about, where the request names one.
    pub open spec fn resource(&self) -> Option<Seq<char>> {
        match self.iam_request {
            Some(request) => Some(request.resource@),
            None => None,
        }
    }

    /// The permissions that are asked about.
    pub open spec fn permissions(&self) -> Seq<String> {
        match self.iam_request {
            Some(request) => request.permissions@,
            None => Seq::empty(),
        }
    }
}

/// Appends one parameter under `key` for each of `values`, in their order.
pub fn push_each(
    query: &mut Vec<(&'static str, String)>,
    key: &'static str,
    values: &Vec<String>,
)
    ensures
        pairs(final(query)@) == pairs(old(query)@) + repeated(key@, values@),
{
    let mut i: usize = 0;
    while i < values.len()
        invariant
            i <= values.len(),
            pairs(query@) == pairs(old(query)@) + repeated(key@, values@.take(i as int)),
        decreases values.len() - i,
    {
        let value = values[i].clone();
        proof {
            pairs_push(query@, key, value);
            assert((pairs(old(query)@) + repeated(key@, values@.take(i as int))).push(
                (key@, value@),
            ) =~= pairs(old(query)@) + repeated(key@, values@.take(i + 1)));
        }
        query.push((key, value));
        i += 1;
    }
    proof {
        assert(values@.take(i as int) == values@);
    }
}

impl Query for TestIamPermissionsRequest {
    open spec fn query_spec(&self) -> Seq<Pair> {
        self.common_request_params.query_spec() + repeated(
            constants::PERMISSIONS@,
            self.permissions(),
        )
    }

    open spec fn fixed_spec() -> Seq<Pair> {
        Seq::empty()
    }

    open spec fn spent(&self) -> bool {
        self.common_request_params is None && self.iam_request is None
    }

    open spec fn kept(&self, before: &Self) -> bool {
        true
    }

    fn request_query(&mut self) -> (query: Vec<(&'static str, String)>) {
        let mut query = self.common_request_params.request_query();
        match self.iam_request.take() {
            Some(request) => push_each(&mut query, constants::PERMISSIONS, &request.permissions),
            None => {
                assert(pairs(query@) + repeated(constants::PERMISSIONS@, Seq::<String>::empty())
                    =~= pairs(query@));
            },
        }
        proof {
            assert(self.query_spec() =~= Self::fixed_spec());
        }
        query
    }
}

impl Request for TestIamPermissionsRequest {
    type Response = TestIamPermissionsResponse;

    open spec fn method_spec() -> Method {
        Method::Get
    }

    open spec fn scope_spec(&self) -> Seq<char> {
        default_scope_spec(Method::Get)
    }

    open spec fn path_spec(&self, base: UrlView) -> Result<UrlView, ErrorView> {
        then_segment(iam_url_spec(base, self.resource()), "testPermissions"@)
    }

    open spec fn headers_spec(&self) -> Seq<Pair> {
        Seq::empty()
    }

    fn request_method() -> (method: Method) {
        Method::Get
    }

    fn request_headers(&self) -> (headers: Vec<(String, String)>) {
        no_headers()
    }

    fn scope(&self) -> (scope: &'static str) {
        default_scope(Method::Get)
    }

    fn request_path(&self, base_url: Url) -> (path: Result<Url, Error>) {
        let target = match &self.iam_request {
            Some(request) => iam_url(base_url, Some(request.resource.as_str())),
            None => iam_url(base_url, None),
        }?;
        target.join_segment("testPermissions")
    }
}

} // verus!
