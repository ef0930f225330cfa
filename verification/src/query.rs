//! Assembly of the query string from a request's optional fields.

use crate::constants;
use crate::google::storage::v1::common_enums::{
    PredefinedBucketAcl, PredefinedObjectAcl, Projection,
};
use crate::google::storage::v1::CommonRequestParams;
use crate::serde::into_string::{decimal, Decimal};
use vstd::prelude::*;
use vstd::string::*;

verus! {

/// One query parameter as contracts see it: key and value.
pub type Pair = (Seq<char>, Seq<char>);

/// The parameters of a query in order, each by the text of its key and value.
pub open spec fn pairs(query: Seq<(&'static str, String)>) -> Seq<Pair> {
    Seq::new(query.len(), |i: int| (query[i].0@, query[i].1@))
}

/// A field value that becomes a query parameter when it is set.
pub trait QueryValue: Sized {
    /// Whether the value is the default of its type, which stands for "not given".
    spec fn is_unset(&self) -> bool;

    /// The value as it is written in the query string.
    spec fn text(&self) -> Seq<char>;

    fn is_default(&self) -> (unset: bool)
        ensures
            unset == self.is_unset(),
    ;

    fn to_text(&self) -> (text: String)
        ensures
            text@ == self.text(),
    ;

    /// Puts the default in the value's place.
    fn reset(&mut self)
        ensures
            final(self).is_unset(),
    ;
}

impl QueryValue for String {
    open spec fn is_unset(&self) -> bool {
        self@.len() == 0
    }

    open spec fn text(&self) -> Seq<char> {
        self@
    }

    fn is_default(&self) -> (unset: bool) {
        self.as_str().is_empty()
    }

    fn to_text(&self) -> (text: String) {
        self.clone()
    }

    fn reset(&mut self) {
        *self = String::new();
    }
}

impl QueryValue for i64 {
    open spec fn is_unset(&self) -> bool {
        *self == 0
    }

    open spec fn text(&self) -> Seq<char> {
        decimal(*self as int)
    }

    fn is_default(&self) -> (unset: bool) {
        *self == 0
    }

    fn to_text(&self) -> (text: String) {
        self.to_decimal()
    }

    fn reset(&mut self) {
        *self = 0;
    }
}

impl QueryValue for i32 {
    open spec fn is_unset(&self) -> bool {
        *self == 0
    }

    open spec fn text(&self) -> Seq<char> {
        decimal(*self as int)
    }

    fn is_default(&self) -> (unset: bool) {
        *self == 0
    }

    fn to_text(&self) -> (text: String) {
        self.to_decimal()
    }

    fn reset(&mut self) {
        *self = 0;
    }
}

impl QueryValue for bool {
    open spec fn is_unset(&self) -> bool {
        !*self
    }

    open spec fn text(&self) -> Seq<char> {
        if *self {
            "true"@
        } else {
            "false"@
        }
    }

    fn is_default(&self) -> (unset: bool) {
        !*self
    }

    fn to_text(&self) -> (text: String) {
        if *self {
            String::from_str("true")
        } else {
            String::from_str("false")
        }
    }

    fn reset(&mut self) {
        *self = false;
    }
}

/// What a scalar field contributes: one parameter where it is set, none where it is not.
pub open spec fn scalar<T: QueryValue>(key: Seq<char>, value: T) -> Seq<Pair> {
    if value.is_unset() {
        Seq::empty()
    } else {
        seq![(key, value.text())]
    }
}

/// What a precondition contributes: exactly one parameter where it is present,
/// whatever its value, and nothing where it is absent.
pub open spec fn optional<T: QueryValue>(key: Seq<char>, value: Option<T>) -> Seq<Pair> {
    match value {
        Some(value) => seq![(key, value.text())],
        None => Seq::empty(),
    }
}

/// What a selector contributes under `key`: its literal, if it has one.
pub open spec fn selected(key: Seq<char>, literal: Option<Seq<char>>) -> Seq<Pair> {
    match literal {
        Some(value) => seq![(key, value)],
        None => Seq::empty(),
    }
}

/// What a repeated field contributes: one parameter per element, in order.
pub open spec fn repeated(key: Seq<char>, values: Seq<String>) -> Seq<Pair> {
    Seq::new(values.len(), |i: int| (key, values[i]@))
}

/// `query` with every key replaced by `key`.
pub open spec fn rekeyed(key: Seq<char>, query: Seq<Pair>) -> Seq<Pair> {
    Seq::new(query.len(), |i: int| (key, query[i].1))
}

/// The elements of `parts` with `separator` between them.
pub open spec fn joined(parts: Seq<String>, separator: Seq<char>) -> Seq<char>
    decreases parts.len(),
{
    if parts.len() == 0 {
        Seq::empty()
    } else if parts.len() == 1 {
        parts[0]@
    } else {
        joined(parts.drop_last(), separator) + separator + parts.last()@
    }
}

/// A scalar field contributes exactly one parameter where it is set and none where
/// it is not; a precondition contributes exactly one where it is present, zero
/// included, and none where it is absent; a selector contributes one where it has
/// a literal.
pub proof fn field_contribution<T: QueryValue>(
    key: Seq<char>,
    value: T,
    literal: Option<Seq<char>>,
)
    ensures
        !value.is_unset() ==> scalar(key, value) == seq![(key, value.text())],
        value.is_unset() ==> scalar(key, value).len() == 0,
        optional(key, Some(value)) == seq![(key, value.text())],
        optional(key, None::<T>).len() == 0,
        literal is Some ==> selected(key, literal) == seq![(key, literal->0)],
        literal is None ==> selected(key, literal).len() == 0,
{
}

/// The view of a query with one more parameter.
pub proof fn pairs_push(query: Seq<(&'static str, String)>, key: &'static str, value: String)
    ensures
        pairs(query.push((key, value))) == pairs(query).push((key@, value@)),
        pairs(query.push((key, value))) == pairs(query) + seq![(key@, value@)],
{
    assert(pairs(query.push((key, value))) =~= pairs(query).push((key@, value@)));
    assert(pairs(query).push((key@, value@)) =~= pairs(query) + seq![(key@, value@)]);
}

/// The view of two queries, one after the other.
pub proof fn pairs_add(first: Seq<(&'static str, String)>, second: Seq<(&'static str, String)>)
    ensures
        pairs(first + second) == pairs(first) + pairs(second),
{
    assert(pairs(first + second) =~= pairs(first) + pairs(second));
}

/// Conditional appending to a query.
pub trait PushIf<T: QueryValue> {
    /// Appends `value` under `key` where it is set, and leaves the default behind.
    fn push_if(&mut self, key: &'static str, value: &mut T);

    /// Appends the content of `value` under `key` where it is present, whatever it
    /// is, and leaves nothing behind.
    fn push_if_opt(&mut self, key: &'static str, value: &mut Option<T>);
}

impl<T: QueryValue> PushIf<T> for Vec<(&'static str, String)> {
    fn push_if(&mut self, key: &'static str, value: &mut T)
        ensures
            pairs(final(self)@) == pairs(old(self)@) + scalar(key@, *old(value)),
            final(value).is_unset(),
    {
        if !value.is_default() {
            let text = value.to_text();
            proof {
                pairs_push(self@, key, text);
            }
            self.push((key, text));
            value.reset();
        } else {
            assert(pairs(self@) + Seq::<Pair>::empty() =~= pairs(self@));
        }
    }

    fn push_if_opt(&mut self, key: &'static str, value: &mut Option<T>)
        ensures
            pairs(final(self)@) == pairs(old(self)@) + optional(key@, *old(value)),
            *final(value) is None,
    {
        match value.take() {
            Some(inner) => {
                let text = inner.to_text();
                proof {
                    pairs_push(self@, key, text);
                }
                self.push((key, text));
            },
            None => {
                assert(pairs(self@) + Seq::<Pair>::empty() =~= pairs(self@));
            },
        }
    }
}

/// A value from whose fields query parameters are drawn.
pub trait Query: Sized {
    /// The parameters that the value's fields give, in the order they are sent.
    spec fn query_spec(&self) -> Seq<Pair>;

    /// The parameters that every value of the type gives, whatever its fields hold.
    spec fn fixed_spec() -> Seq<Pair>;

    /// Whether every field from which parameters are drawn holds nothing to draw:
    /// the default of its type, or `None` where it is optional.
    spec fn spent(&self) -> bool;

    /// Whether the fields from which no parameter is drawn are as in `before`.
    spec fn kept(&self, before: &Self) -> bool;

    /// Draws the parameters from the value and leaves each field it drew from at
    /// its default, or at `None`, and every other field as it was: a second call
    /// gives only what every value of the type gives.
    fn request_query(&mut self) -> (query: Vec<(&'static str, String)>)
        ensures
            pairs(query@) == old(self).query_spec(),
            final(self).spent(),
            final(self).kept(old(self)),
            final(self).query_spec() == Self::fixed_spec(),
    ;
}

impl<T: Query> Query for Option<T> {
    open spec fn query_spec(&self) -> Seq<Pair> {
        match *self {
            Some(inner) => inner.query_spec(),
            None => Seq::empty(),
        }
    }

    open spec fn fixed_spec() -> Seq<Pair> {
        Seq::empty()
    }

    open spec fn spent(&self) -> bool {
        *self is None
    }

    open spec fn kept(&self, before: &Self) -> bool {
        true
    }

    fn request_query(&mut self) -> (query: Vec<(&'static str, String)>) {
        match self.take() {
            Some(mut inner) => inner.request_query(),
            None => {
                let query = Vec::new();
                assert(pairs(query@) =~= Seq::<Pair>::empty());
                query
            },
        }
    }
}

/// Joins `parts` with `separator`.
pub fn join(parts: &Vec<String>, separator: &str) -> (text: String)
    ensures
        text@ == joined(parts@, separator@),
{
    let mut text = String::new();
    let mut i: usize = 0;
    while i < parts.len()
        invariant
            i <= parts.len(),
            text@ == joined(parts@.take(i as int), separator@),
        decreases parts.len() - i,
    {
        proof {
            assert(parts@.take(i + 1).drop_last() == parts@.take(i as int));
            assert(parts@.take(i + 1).last() == parts@[i as int]);
            if i == 0 {
                assert(Seq::<char>::empty() + parts@[0]@ == parts@[0]@);
            }
        }
        if i > 0 {
            text.append(separator);
        }
        text.append(parts[i].as_str());
        i += 1;
    }
    proof {
        assert(parts@.take(i as int) == parts@);
    }
    text
}

/// Appends the parameters of `more` to `query`.
pub fn extend(query: &mut Vec<(&'static str, String)>, more: Vec<(&'static str, String)>)
    ensures
        pairs(final(query)@) == pairs(old(query)@) + pairs(more@),
{
    let mut more = more;
    proof {
        pairs_add(query@, more@);
    }
    query.append(&mut more);
}

/// Appends `value` under `key`, whatever the request holds.
pub fn push_fixed(query: &mut Vec<(&'static str, String)>, key: &'static str, value: &'static str)
    ensures
        pairs(final(query)@) == pairs(old(query)@) + seq![(key@, value@)],
{
    let text = String::from_str(value);
    proof {
        pairs_push(query@, key, text);
    }
    query.push((key, text));
}

/// Reads a selector's wire number and leaves zero, the number of "unspecified", behind.
pub fn take_number(number: &mut i32) -> (taken: i32)
    ensures
        taken == *old(number),
        *final(number) == 0,
{
    let taken = *number;
    *number = 0;
    taken
}

/// Appends what `selector` contributes. A wire number that names no variant
/// arrives here as `None` and contributes nothing.
pub fn push_enum<E: Query>(query: &mut Vec<(&'static str, String)>, selector: Option<E>)
    ensures
        pairs(final(query)@) == pairs(old(query)@) + selector.query_spec(),
{
    let mut selector = selector;
    let more = selector.request_query();
    extend(query, more);
}

/// Appends what `selector` contributes, under `key` in place of the selector's own.
pub fn push_enum_as<E: Query>(
    query: &mut Vec<(&'static str, String)>,
    key: &'static str,
    selector: Option<E>,
)
    ensures
        pairs(final(query)@) == pairs(old(query)@) + rekeyed(key@, selector.query_spec()),
{
    let mut selector = selector;
    let more = selector.request_query();
    let mut renamed: Vec<(&'static str, String)> = Vec::new();
    let mut i: usize = 0;
    while i < more.len()
        invariant
            i <= more.len(),
            pairs(renamed@) == rekeyed(key@, pairs(more@.take(i as int))),
        decreases more.len() - i,
    {
        let value = more[i].1.clone();
        proof {
            pairs_push(renamed@, key, value);
            assert(pairs(renamed@).push((key@, value@)) =~= rekeyed(
                key@,
                pairs(more@.take(i + 1)),
            ));
        }
        renamed.push((key, value));
        i += 1;
    }
    proof {
        assert(more@.take(i as int) == more@);
    }
    extend(query, renamed);
}

/// What the parameters common to all requests contribute.
pub open spec fn common_spec(params: CommonRequestParams) -> Seq<Pair> {
    scalar(constants::QUOTA_USER@, params.quota_user) + match params.fields {
        Some(mask) => seq![(constants::FIELDS@, joined(mask.paths@, ","@))],
        None => Seq::empty(),
    }
}

impl Query for CommonRequestParams {
    open spec fn query_spec(&self) -> Seq<Pair> {
        common_spec(*self)
    }

    open spec fn fixed_spec() -> Seq<Pair> {
        Seq::empty()
    }

    open spec fn spent(&self) -> bool {
        self.quota_user@.len() == 0 && self.fields is None
    }

    open spec fn kept(&self, before: &Self) -> bool {
        self.user_project == before.user_project
    }

    fn request_query(&mut self) -> (query: Vec<(&'static str, String)>) {
        let mut query = Vec::new();
        assert(pairs(query@) =~= Seq::<Pair>::empty());
        query.push_if(constants::QUOTA_USER, &mut self.quota_user);
        assert(pairs(query@) == scalar(constants::QUOTA_USER@, old(self).quota_user));
        match self.fields.take() {
            Some(mask) => {
                let paths = join(&mask.paths, ",");
                proof {
                    pairs_push(query@, constants::FIELDS, paths);
                }
                query.push((constants::FIELDS, paths));
            },
            None => {
                assert(pairs(query@) + Seq::<Pair>::empty() == pairs(query@));
            },
        }
        assert(scalar(constants::QUOTA_USER@, self.quota_user) + Seq::<Pair>::empty()
            =~= Seq::<Pair>::empty());
        query
    }
}

impl Query for PredefinedBucketAcl {
    open spec fn query_spec(&self) -> Seq<Pair> {
        selected(constants::PREDEFINED_ACL@, self.literal())
    }

    open spec fn fixed_spec() -> Seq<Pair> {
        Seq::empty()
    }

    open spec fn spent(&self) -> bool {
        *self == PredefinedBucketAcl::Unspecified
    }

    open spec fn kept(&self, before: &Self) -> bool {
        true
    }

    fn request_query(&mut self) -> (query: Vec<(&'static str, String)>) {
        let literal = match *self {
            PredefinedBucketAcl::Unspecified => None,
            PredefinedBucketAcl::BucketAclAuthenticatedRead => Some("authenticatedRead"),
            PredefinedBucketAcl::BucketAclPrivate => Some("private"),
            PredefinedBucketAcl::BucketAclProjectPrivate => Some("projectPrivate"),
            PredefinedBucketAcl::BucketAclPublicRead => Some("publicRead"),
            PredefinedBucketAcl::BucketAclPublicReadWrite => Some("publicReadWrite"),
        };
        *self = PredefinedBucketAcl::Unspecified;
        single(constants::PREDEFINED_ACL, literal)
    }
}

impl Query for PredefinedObjectAcl {
    open spec fn query_spec(&self) -> Seq<Pair> {
        selected(constants::PREDEFINED_DEFAULT_OBJECT_ACL@, self.literal())
    }

    open spec fn fixed_spec() -> Seq<Pair> {
        Seq::empty()
    }

    open spec fn spent(&self) -> bool {
        *self == PredefinedObjectAcl::Unspecified
    }

    open spec fn kept(&self, before: &Self) -> bool {
        true
    }

    fn request_query(&mut self) -> (query: Vec<(&'static str, String)>) {
        let literal = match *self {
            PredefinedObjectAcl::Unspecified => None,
            PredefinedObjectAcl::ObjectAclAuthenticatedRead => Some("authenticatedRead"),
            PredefinedObjectAcl::ObjectAclBucketOwnerFullControl => Some(
                "bucketOwnerFullControl",
            ),
            PredefinedObjectAcl::ObjectAclBucketOwnerRead => Some("bucketOwnerRead"),
            PredefinedObjectAcl::ObjectAclPrivate => Some("private"),
            PredefinedObjectAcl::ObjectAclProjectPrivate => Some("projectPrivate"),
            PredefinedObjectAcl::ObjectAclPublicRead => Some("publicRead"),
        };
        *self = PredefinedObjectAcl::Unspecified;
        single(constants::PREDEFINED_DEFAULT_OBJECT_ACL, literal)
    }
}

impl Query for Projection {
    open spec fn query_spec(&self) -> Seq<Pair> {
        selected(constants::PROJECTION@, self.literal())
    }

    open spec fn fixed_spec() -> Seq<Pair> {
        Seq::empty()
    }

    open spec fn spent(&self) -> bool {
        *self == Projection::Unspecified
    }

    open spec fn kept(&self, before: &Self) -> bool {
        true
    }

    fn request_query(&mut self) -> (query: Vec<(&'static str, String)>) {
        let literal = match *self {
            Projection::Unspecified => None,
            Projection::NoAcl => Some("noAcl"),
            Projection::Full => Some("full"),
        };
        *self = Projection::Unspecified;
        single(constants::PROJECTION, literal)
    }
}

/// The query of one selector: its literal under `key`, or nothing.
fn single(key: &'static str, literal: Option<&'static str>) -> (query: Vec<(&'static str, String)>)
    ensures
        pairs(query@) == selected(
            key@,
            match literal {
                Some(value) => Some(value@),
                None => None,
            },
        ),
{
    let mut query = Vec::new();
    match literal {
        Some(value) => {
            query.push((key, String::from_str(value)));
            assert(pairs(query@) =~= seq![(key@, value@)]);
        },
        None => {
            assert(pairs(query@) =~= Seq::<Pair>::empty());
        },
    }
    query
}

} // verus!
