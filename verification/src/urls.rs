//! URLs and the composition of resource paths.

use crate::encode::{encode, percent_encoded, EscapeClass};
use crate::error::{Error, ErrorView};
use vstd::prelude::*;
use vstd::string::*;
use vstd::utf8::{encode_utf8, is_ascii_chars, is_ascii_chars_encode_utf8};

verus! {

/// A URL in its normal form, with the parts that path composition reads.
#[derive(Debug, PartialEq, Eq)]
pub struct Url {
    serialization: String,
    scheme: String,
    host: Option<String>,
    path: String,
    cannot_be_a_base: bool,
}

/// A `Url` as contracts see it.
pub struct UrlView {
    pub serialization: Seq<char>,
    pub scheme: Seq<char>,
    pub host: Option<Seq<char>>,
    pub path: Seq<char>,
    pub cannot_be_a_base: bool,
}

impl View for Url {
    type V = UrlView;

    closed spec fn view(&self) -> UrlView {
        UrlView {
            serialization: self.serialization@,
            scheme: self.scheme@,
            host: match self.host {
                Some(host) => Some(host@),
                None => None,
            },
            path: self.path@,
            cannot_be_a_base: self.cannot_be_a_base,
        }
    }
}

impl Clone for Url {
    fn clone(&self) -> (copy: Url)
        ensures
            copy@ == self@,
    {
        Url {
            serialization: self.serialization.clone(),
            scheme: self.scheme.clone(),
            host: match &self.host {
                Some(host) => Some(host.clone()),
                None => None,
            },
            path: self.path.clone(),
            cannot_be_a_base: self.cannot_be_a_base,
        }
    }
}

/// What `url::Url::parse` makes of `input`; `None` where it is no absolute URL.
pub uninterp spec fn url_parsed(input: Seq<char>) -> Option<UrlView>;

/// What `url::Url::join` makes of `input` against the URL written `base`;
/// `None` where either cannot be parsed.
pub uninterp spec fn url_joined(base: Seq<char>, input: Seq<char>) -> Option<UrlView>;

/// The URL written `base` after `url::PathSegmentsMut::push` has appended `segment`
/// to its path; `None` where `base` is no URL that can take path segments.
pub uninterp spec fn url_pushed(base: Seq<char>, segment: Seq<char>) -> Option<UrlView>;

/// `url::Url::parse`, with the parts of the result read off by `as_str`, `scheme`,
/// `host_str`, `path` and `cannot_be_a_base`.
#[verifier::external_body]
fn parse_text(input: &str) -> (parsed: Result<Url, url::ParseError>)
    ensures
        match parsed {
            Ok(url) => url_parsed(input@) == Some(url@),
            Err(_) => url_parsed(input@) is None,
        },
{
    let url = url::Url::parse(input)?;
    Ok(
        Url {
            serialization: url.as_str().to_string(),
            scheme: url.scheme().to_string(),
            host: url.host_str().map(str::to_string),
            path: url.path().to_string(),
            cannot_be_a_base: url.cannot_be_a_base(),
        },
    )
}

/// `url::Url::join` on the URL that `base` is the text of, with the parts of the
/// result read off as in `parse_text`.
#[verifier::external_body]
fn join_text(base: &str, input: &str) -> (joined: Result<Url, url::ParseError>)
    ensures
        match joined {
            Ok(url) => url_joined(base@, input@) == Some(url@),
            Err(_) => url_joined(base@, input@) is None,
        },
{
    let url = url::Url::parse(base)?.join(input)?;
    Ok(
        Url {
            serialization: url.as_str().to_string(),
            scheme: url.scheme().to_string(),
            host: url.host_str().map(str::to_string),
            path: url.path().to_string(),
            cannot_be_a_base: url.cannot_be_a_base(),
        },
    )
}

/// `url::Url::path_segments_mut` and `url::PathSegmentsMut::push` on the URL that
/// `base` is the text of, with the parts of the result read off as in `parse_text`.
///
/// The crate counts the bytes of a URL in 32 bits and gives up where the URL
/// that it has read, with the segment appended, has more. The bound is therefore
/// on what parsing makes of `base`, which can be longer than `base`; the segment
/// is written with at most three bytes for each of its own, after one `/`.
#[verifier::external_body]
fn push_text(base: &str, segment: &str) -> (pushed: Option<Url>)
    requires
        url_parsed(base@) matches Some(read) ==> encode_utf8(read.serialization).len() + 3
            * segment.spec_bytes().len() + 1 <= u32::MAX,
    ensures
        match pushed {
            Some(url) => url_pushed(base@, segment@) == Some(url@),
            None => url_pushed(base@, segment@) is None,
        },
{
    let mut url = url::Url::parse(base).ok()?;
    url.path_segments_mut().ok()?.push(segment);
    Some(
        Url {
            serialization: url.as_str().to_string(),
            scheme: url.scheme().to_string(),
            host: url.host_str().map(str::to_string),
            path: url.path().to_string(),
            cannot_be_a_base: url.cannot_be_a_base(),
        },
    )
}

/// A `Result` of path composition as contracts see it.
pub open spec fn outcome(result: Result<Url, Error>) -> Result<UrlView, ErrorView> {
    match result {
        Ok(url) => Ok(url@),
        Err(error) => Err(error@),
    }
}

/// Parsing, with its failure as an `Error`.
pub open spec fn parse_spec(input: Seq<char>) -> Result<UrlView, ErrorView> {
    match url_parsed(input) {
        Some(url) => Ok(url),
        None => Err(ErrorView::Url),
    }
}

/// Resolving `input` against `base`, with its failure as an `Error`.
pub open spec fn join_spec(base: UrlView, input: Seq<char>) -> Result<UrlView, ErrorView> {
    match url_joined(base.serialization, input) {
        Some(url) => Ok(url),
        None => Err(ErrorView::Url),
    }
}

/// The most bytes that a URL can have, as it is read back from its text, and
/// still be given a last segment.
pub const LONGEST_BASE: usize = 0xFFFF_FFF0;

/// Whether the URL that the text `base` is read as has room for a last segment.
pub open spec fn has_room(base: Seq<char>) -> bool {
    url_parsed(base) matches Some(read) && encode_utf8(read.serialization).len()
        <= LONGEST_BASE
}

/// `base` with a path that ends in `/`, so that a reference resolved against it is
/// appended and replaces nothing; `None` where `base` cannot take path segments,
/// for want of a hierarchy or of room.
pub open spec fn anchored(base: UrlView) -> Option<UrlView> {
    if base.cannot_be_a_base {
        None
    } else if base.path.len() > 0 && base.path.last() == '/' {
        Some(base)
    } else if !has_room(base.serialization) {
        None
    } else {
        url_pushed(base.serialization, seq!['/'])
    }
}

/// `segment` resolved against the anchored `base`.
pub open spec fn join_segment_spec(base: UrlView, segment: Seq<char>) -> Result<
    UrlView,
    ErrorView,
> {
    match anchored(base) {
        Some(directory) => join_spec(directory, segment),
        None => Err(ErrorView::InvalidRequestUrl(base)),
    }
}

/// The literal directory `marker`, then `name` escaped under `class`.
pub open spec fn resource_spec(
    base: UrlView,
    marker: Seq<char>,
    class: EscapeClass,
    name: Seq<char>,
) -> Result<UrlView, ErrorView> {
    match join_segment_spec(base, marker) {
        Ok(directory) => join_spec(directory, percent_encoded(class, encode_utf8(name))),
        Err(error) => Err(error),
    }
}

/// `{base}/b/{bucket}`.
pub open spec fn bucket_spec(base: UrlView, bucket: Seq<char>) -> Result<UrlView, ErrorView> {
    resource_spec(base, seq!['b', '/'], EscapeClass::Normal, bucket)
}

/// `{base}/{name}`, the name escaped like a bucket's.
pub open spec fn named_spec(base: UrlView, name: Seq<char>) -> Result<UrlView, ErrorView> {
    join_segment_spec(base, percent_encoded(EscapeClass::Normal, encode_utf8(name)))
}

/// `{base}/o/{object}`, slashes in the name kept.
pub open spec fn object_spec(base: UrlView, object: Seq<char>) -> Result<UrlView, ErrorView> {
    resource_spec(base, seq!['o', '/'], EscapeClass::Normal, object)
}

/// `{base}/o/{object}`, slashes in the name escaped.
pub open spec fn slash_object_spec(base: UrlView, object: Seq<char>) -> Result<UrlView, ErrorView> {
    resource_spec(base, seq!['o', '/'], EscapeClass::Slash, object)
}

/// `input` resolved against the target so far.
pub open spec fn then_join(target: Result<UrlView, ErrorView>, input: Seq<char>) -> Result<
    UrlView,
    ErrorView,
> {
    match target {
        Ok(url) => join_spec(url, input),
        Err(error) => Err(error),
    }
}

/// `segment` appended below the target so far.
pub open spec fn then_segment(target: Result<UrlView, ErrorView>, segment: Seq<char>) -> Result<
    UrlView,
    ErrorView,
> {
    match target {
        Ok(url) => join_segment_spec(url, segment),
        Err(error) => Err(error),
    }
}

/// A name, escaped, below the target so far.
pub open spec fn then_named(target: Result<UrlView, ErrorView>, name: Seq<char>) -> Result<
    UrlView,
    ErrorView,
> {
    match target {
        Ok(url) => named_spec(url, name),
        Err(error) => Err(error),
    }
}

/// A bucket below the target so far.
pub open spec fn then_bucket(target: Result<UrlView, ErrorView>, bucket: Seq<char>) -> Result<
    UrlView,
    ErrorView,
> {
    match target {
        Ok(url) => bucket_spec(url, bucket),
        Err(error) => Err(error),
    }
}

/// An object below the target so far, slashes in its name kept.
pub open spec fn then_object(target: Result<UrlView, ErrorView>, object: Seq<char>) -> Result<
    UrlView,
    ErrorView,
> {
    match target {
        Ok(url) => object_spec(url, object),
        Err(error) => Err(error),
    }
}

/// An object below the target so far, slashes in its name escaped.
pub open spec fn then_slash_object(
    target: Result<UrlView, ErrorView>,
    object: Seq<char>,
) -> Result<UrlView, ErrorView> {
    match target {
        Ok(url) => slash_object_spec(url, object),
        Err(error) => Err(error),
    }
}

impl Url {
    /// Parses an absolute URL.
    pub fn parse(input: &str) -> (result: Result<Url, Error>)
        ensures
            outcome(result) == parse_spec(input@),
    {
        match parse_text(input) {
            Ok(url) => Ok(url),
            Err(source) => Err(Error::Url { source }),
        }
    }

    /// The URL as text.
    pub fn as_str(&self) -> (text: &str)
        ensures
            text@ == self@.serialization,
    {
        self.serialization.as_str()
    }

    /// The scheme, without the `:`.
    pub fn scheme(&self) -> (text: &str)
        ensures
            text@ == self@.scheme,
    {
        self.scheme.as_str()
    }

    /// The host as text, if the URL has one.
    pub fn host_str(&self) -> (text: Option<&str>)
        ensures
            match text {
                Some(host) => self@.host == Some(host@),
                None => self@.host is None,
            },
    {
        match &self.host {
            Some(host) => Some(host.as_str()),
            None => None,
        }
    }

    /// The path.
    pub fn path(&self) -> (text: &str)
        ensures
            text@ == self@.path,
    {
        self.path.as_str()
    }

    /// Whether the URL has no hierarchy to append to.
    pub fn cannot_be_a_base(&self) -> (flag: bool)
        ensures
            flag == self@.cannot_be_a_base,
    {
        self.cannot_be_a_base
    }

    /// Resolves a reference against this URL.
    pub fn join(&self, input: &str) -> (result: Result<Url, Error>)
        ensures
            outcome(result) == join_spec(self@, input@),
    {
        match join_text(self.serialization.as_str(), input) {
            Ok(url) => Ok(url),
            Err(source) => Err(Error::Url { source }),
        }
    }

    /// Appends `segment` below the whole of this URL's path.
    ///
    /// A path that does not end in `/` is first given a last segment for the
    /// reference to replace, so that none of the segments already there is lost.
    pub fn join_segment(self, segment: &str) -> (result: Result<Url, Error>)
        ensures
            outcome(result) == join_segment_spec(self@, segment@),
    {
        if self.cannot_be_a_base {
            return Err(Error::InvalidRequestUrl { url: self });
        }
        let length = self.path.as_str().unicode_len();
        if length > 0 && self.path.as_str().get_char(length - 1) == '/' {
            return self.join(segment);
        }
        let room = match parse_text(self.serialization.as_str()) {
            Ok(read) => read.serialization.as_str().as_bytes().len() <= LONGEST_BASE,
            Err(_) => false,
        };
        if !room {
            return Err(Error::InvalidRequestUrl { url: self });
        }
        proof {
            reveal_strlit("/");
            assert("/"@ == seq!['/']);
            assert(is_ascii_chars("/"@));
            is_ascii_chars_encode_utf8("/"@);
            assert("/".spec_bytes().len() == 1);
        }
        match push_text(self.serialization.as_str(), "/") {
            Some(directory) => directory.join(segment),
            None => Err(Error::InvalidRequestUrl { url: self }),
        }
    }

    fn resource(self, marker: &str, class: EscapeClass, name: &str) -> (result: Result<Url, Error>)
        ensures
            outcome(result) == resource_spec(self@, marker@, class, name@),
    {
        let directory = self.join_segment(marker)?;
        let encoded = encode(class, name);
        directory.join(encoded.as_str())
    }

    /// Appends `name`, escaped like a bucket's, below the whole of this URL's path.
    pub fn named(self, name: &str) -> (result: Result<Url, Error>)
        ensures
            outcome(result) == named_spec(self@, name@),
    {
        let encoded = encode(EscapeClass::Normal, name);
        self.join_segment(encoded.as_str())
    }

    /// The URL of a bucket below this one.
    pub fn bucket(self, bucket: &str) -> (result: Result<Url, Error>)
        ensures
            outcome(result) == bucket_spec(self@, bucket@),
    {
        proof {
            reveal_strlit("b/");
            assert("b/"@ == seq!['b', '/']);
        }
        self.resource("b/", EscapeClass::Normal, bucket)
    }

    /// The URL of an object below this bucket URL; `/` in the name separates segments.
    pub fn object(self, object: &str) -> (result: Result<Url, Error>)
        ensures
            outcome(result) == object_spec(self@, object@),
    {
        proof {
            reveal_strlit("o/");
            assert("o/"@ == seq!['o', '/']);
        }
        self.resource("o/", EscapeClass::Normal, object)
    }

    /// The URL of an object below this bucket URL, the name as one segment.
    pub fn slash_object(self, object: &str) -> (result: Result<Url, Error>)
        ensures
            outcome(result) == slash_object_spec(self@, object@),
    {
        proof {
            reveal_strlit("o/");
            assert("o/"@ == seq!['o', '/']);
        }
        self.resource("o/", EscapeClass::Slash, object)
    }
}

} // verus!
