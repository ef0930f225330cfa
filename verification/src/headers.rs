//! Where the credentials of a call come from.

use crate::error::Error;
use crate::request::header_pairs;
use vstd::prelude::*;
use vstd::string::*;

verus! {

/// The name of the header that carries the credentials.
pub const AUTHORIZATION: &'static str = "authorization";

/// A source of credentials: gives the headers that authorise a call of the
/// given scope, or says why it has none.
pub trait Headers {
    fn headers(&self, scope: &str) -> Result<Vec<(String, String)>, Error>;
}

/// No credentials: every scope gets no headers.
impl Headers for () {
    fn headers(&self, _scope: &str) -> (headers: Result<Vec<(String, String)>, Error>)
        ensures
            headers matches Ok(list) && list@.len() == 0,
    {
        Ok(Vec::new())
    }
}

/// A token that is good for every scope.
#[derive(Clone, Debug, Default, PartialEq, Eq)]
pub struct Bearer {
    pub token: String,
}

/// The value of the authorization header for a bearer token.
pub open spec fn bearer_spec(token: Seq<char>) -> Seq<char> {
    "Bearer "@ + token
}

/// The value of the authorization header for a bearer token.
pub fn bearer(token: &str) -> (value: String)
    ensures
        value@ == bearer_spec(token@),
{
    String::from_str("Bearer ").concat(token)
}

/// The one header that carries `value` as the credentials.
pub fn authorization(value: String) -> (headers: Vec<(String, String)>)
    ensures
        header_pairs(headers@) == seq![(AUTHORIZATION@, value@)],
{
    let mut headers = Vec::new();
    headers.push((String::from_str(AUTHORIZATION), value));
    assert(header_pairs(headers@) =~= seq![(AUTHORIZATION@, value@)]);
    headers
}

impl Headers for Bearer {
    fn headers(&self, _scope: &str) -> (headers: Result<Vec<(String, String)>, Error>)
        ensures
            headers matches Ok(list) && header_pairs(list@) == seq![
                (AUTHORIZATION@, bearer_spec(self.token@)),
            ],
    {
        Ok(authorization(bearer(self.token.as_str())))
    }
}

} // verus!
