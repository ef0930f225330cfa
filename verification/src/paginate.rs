//! Listings that arrive page by page.

use crate::request::Request;
use vstd::pervasive::cloned;
use vstd::prelude::*;

verus! {

/// A listing request whose response carries items and the token of the next page.
pub trait Paginate: Request + Clone + Sized {
    /// What the listing lists.
    type Item;

    /// The items of a page, in the order they arrived.
    spec fn items_spec(response: Self::Response) -> Seq<Self::Item>;

    /// The continuation token of a page; empty on the last page.
    spec fn token_spec(response: &Self::Response) -> Seq<char>;

    /// The request for the page after `response`: this request with the page token
    /// replaced and nothing else changed.
    spec fn next_spec(self, response: &Self::Response) -> Self;

    /// Whether the two requests agree field by field, text being compared as text.
    spec fn same(&self, other: &Self) -> bool;

    /// A copy of a request agrees with the request.
    proof fn copy_is_same(&self, copy: &Self)
        requires
            cloned(*self, *copy),
        ensures
            copy.same(self),
    ;

    /// Requests that agree have next requests that agree.
    proof fn next_of_same(self, other: Self, response: &Self::Response)
        requires
            self.same(&other),
        ensures
            self.next_spec(response).same(&other.next_spec(response)),
    ;

    fn extract_items(response: Self::Response) -> (items: Vec<Self::Item>)
        ensures
            items@ == Self::items_spec(response),
    ;

    /// The request for the next page, or `None` where `response` is the last page.
    fn into_request(self, response: &Self::Response) -> (next: Option<Self>)
        ensures
            match next {
                Some(request) => Self::token_spec(response).len() > 0 && request == self.next_spec(
                    response,
                ),
                None => Self::token_spec(response).len() == 0,
            },
    ;
}

/// How many of `responses` a listing fetches: all up to and with the first that
/// carries no token.
pub open spec fn fetched<T: Paginate>(responses: Seq<T::Response>) -> nat
    decreases responses.len(),
{
    if responses.len() == 0 {
        0
    } else if T::token_spec(&responses[0]).len() == 0 {
        1
    } else {
        1 + fetched::<T>(responses.drop_first())
    }
}

/// The items that a listing yields from `responses`: those of the fetched pages,
/// page after page.
pub open spec fn yielded<T: Paginate>(responses: Seq<T::Response>) -> Seq<T::Item>
    decreases responses.len(),
{
    if responses.len() == 0 {
        Seq::empty()
    } else if T::token_spec(&responses[0]).len() == 0 {
        T::items_spec(responses[0])
    } else {
        T::items_spec(responses[0]) + yielded::<T>(responses.drop_first())
    }
}

/// A listing whose first response carries no token fetches that response alone and
/// yields its items, whatever responses might follow.
pub proof fn single_page<T: Paginate>(responses: Seq<T::Response>)
    requires
        responses.len() > 0,
        T::token_spec(&responses[0]).len() == 0,
    ensures
        fetched::<T>(responses) == 1,
        yielded::<T>(responses) == T::items_spec(responses[0]),
{
}

/// A listing whose first two responses carry tokens and whose third carries none
/// fetches the three, in their order, and yields their items one page after the
/// other.
pub proof fn three_pages<T: Paginate>(responses: Seq<T::Response>)
    requires
        responses.len() >= 3,
        T::token_spec(&responses[0]).len() > 0,
        T::token_spec(&responses[1]).len() > 0,
        T::token_spec(&responses[2]).len() == 0,
    ensures
        fetched::<T>(responses) == 3,
        yielded::<T>(responses) == T::items_spec(responses[0]) + T::items_spec(responses[1])
            + T::items_spec(responses[2]),
{
    let second = responses.drop_first();
    let third = second.drop_first();
    assert(second[0] == responses[1]);
    assert(third[0] == responses[2]);
    assert(fetched::<T>(third) == 1);
    assert(fetched::<T>(second) == 2);
    assert(yielded::<T>(third) == T::items_spec(responses[2]));
    assert(yielded::<T>(second) == T::items_spec(responses[1]) + T::items_spec(responses[2]));
    assert(T::items_spec(responses[0]) + (T::items_spec(responses[1]) + T::items_spec(
        responses[2],
    )) == T::items_spec(responses[0]) + T::items_spec(responses[1]) + T::items_spec(
        responses[2],
    ));
}

/// The state of a listing between two calls: the request to send next, if any,
/// and a copy of the request that the listing began with.
pub struct Paginator<T: Paginate> {
    initial: T,
    next: Option<T>,
}

impl<T: Paginate> Paginator<T> {
    /// The listing's copy of the request that it began with.
    pub closed spec fn initial(&self) -> T {
        self.initial
    }

    /// The request to send next; `None` once the listing is exhausted.
    pub closed spec fn pending(&self) -> Option<T> {
        self.next
    }

    /// A listing that begins with `request`.
    pub fn new(request: T) -> (paginator: Self)
        ensures
            paginator.initial().same(&request),
            paginator.pending() == Some(request),
    {
        let initial = request.clone();
        proof {
            request.copy_is_same(&initial);
        }
        Paginator { initial, next: Some(request) }
    }

    /// Whether no request is left to send.
    pub fn is_exhausted(&self) -> (exhausted: bool)
        ensures
            exhausted == (self.pending() is None),
    {
        self.next.is_none()
    }

    /// Hands out the request to send next. Until `advance` is told the response,
    /// the listing has nothing pending.
    pub fn begin(&mut self) -> (request: Option<T>)
        ensures
            request == old(self).pending(),
            final(self).pending() is None,
            final(self).initial() == old(self).initial(),
    {
        self.next.take()
    }

    /// Takes the response to the request that `begin` handed out and yields its
    /// items. The next request is the initial request with the response's token
    /// in place of its own and no other field changed, whichever page the
    /// response was; an empty token exhausts the listing.
    pub fn advance(&mut self, response: T::Response) -> (items: Vec<T::Item>)
        ensures
            items@ == T::items_spec(response),
            final(self).initial() == old(self).initial(),
            T::token_spec(&response).len() == 0 ==> final(self).pending() is None,
            T::token_spec(&response).len() > 0 ==> (final(self).pending() matches Some(next)
                && next.same(&old(self).initial().next_spec(&response))),
    {
        let copy = self.initial.clone();
        proof {
            self.initial.copy_is_same(&copy);
            copy.next_of_same(self.initial, &response);
        }
        self.next = copy.into_request(&response);
        T::extract_items(response)
    }

    /// Runs a listing against responses that are already at hand, in place of a
    /// transport, and returns the items it yields and the number of responses it
    /// fetched. It stops after the first response without a token, and fetches
    /// nothing beyond it.
    pub fn replay(request: T, responses: Vec<T::Response>) -> (run: (Vec<T::Item>, usize))
        ensures
            run.0@ == yielded::<T>(responses@),
            run.1 == fetched::<T>(responses@),
    {
        let mut paginator = Paginator::new(request);
        let mut items: Vec<T::Item> = Vec::new();
        let mut calls: usize = 0;
        let ghost all = responses@;
        let total = responses.len();
        let mut rest = responses;
        while !paginator.is_exhausted() && rest.len() > 0
            invariant
                all.len() == total,
                calls + rest@.len() == all.len(),
                rest@ == all.skip(calls as int),
                paginator.pending() is Some ==> items@ + yielded::<T>(rest@) == yielded::<T>(all),
                paginator.pending() is Some ==> calls + fetched::<T>(rest@) == fetched::<T>(all),
                paginator.pending() is None ==> items@ == yielded::<T>(all),
                paginator.pending() is None ==> calls == fetched::<T>(all),
            decreases rest.len(),
        {
            let _request = paginator.begin();
            let ghost before = rest@;
            let ghost so_far = items@;
            let response = rest.remove(0);
            proof {
                assert(before.drop_first() == rest@);
                assert(before[0] == response);
            }
            calls += 1;
            let mut page = paginator.advance(response);
            items.append(&mut page);
            proof {
                assert(so_far + (T::items_spec(response) + yielded::<T>(rest@)) == so_far
                    + T::items_spec(response) + yielded::<T>(rest@));
            }
        }
        (items, calls)
    }
}

} // verus!
