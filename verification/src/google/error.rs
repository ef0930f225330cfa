//! The error body that the service sends with a failure status.

use crate::json::{get, get_text, member, text_member, Json};
use vstd::prelude::*;

verus! {

/// One entry of the `errors` list.
#[derive(Clone, Debug, Default, PartialEq, Eq)]
pub struct Error {
    pub domain: String,
    pub location: String,
    pub location_type: String,
    pub message: String,
    pub reason: String,
}

/// The `error` member of the body.
#[derive(Clone, Debug, Default, PartialEq, Eq)]
pub struct Errors {
    pub code: u16,
    pub errors: Vec<Error>,
    pub message: String,
}

/// The whole body.
#[derive(Clone, Debug, Default, PartialEq, Eq)]
pub struct ErrorResponse {
    pub error: Errors,
}

/// An `Error` as contracts see it.
pub struct ErrorView {
    pub domain: Seq<char>,
    pub location: Seq<char>,
    pub location_type: Seq<char>,
    pub message: Seq<char>,
    pub reason: Seq<char>,
}

/// An `Errors` as contracts see it.
pub struct ErrorsView {
    pub code: u16,
    pub errors: Seq<ErrorView>,
    pub message: Seq<char>,
}

/// An `ErrorResponse` as contracts see it.
pub struct ErrorResponseView {
    pub error: ErrorsView,
}

impl View for Error {
    type V = ErrorView;

    open spec fn view(&self) -> ErrorView {
        ErrorView {
            domain: self.domain@,
            location: self.location@,
            location_type: self.location_type@,
            message: self.message@,
            reason: self.reason@,
        }
    }
}

/// The entries of a list, each as contracts see it.
pub open spec fn views(errors: Seq<Error>) -> Seq<ErrorView> {
    Seq::new(errors.len(), |i: int| errors[i]@)
}

impl View for Errors {
    type V = ErrorsView;

    open spec fn view(&self) -> ErrorsView {
        ErrorsView { code: self.code, errors: views(self.errors@), message: self.message@ }
    }
}

impl View for ErrorResponse {
    type V = ErrorResponseView;

    open spec fn view(&self) -> ErrorResponseView {
        ErrorResponseView { error: self.error@ }
    }
}

/// The entry that `json` writes: an object whose members `domain`, `location`,
/// `locationType`, `message` and `reason` are strings where they are there.
pub open spec fn detail_spec(json: Json) -> Option<ErrorView> {
    match json {
        Json::Object(members) => match (
            text_member(members@, "domain"@),
            text_member(members@, "location"@),
            text_member(members@, "locationType"@),
            text_member(members@, "message"@),
            text_member(members@, "reason"@),
        ) {
            (
                Some(domain),
                Some(location),
                Some(location_type),
                Some(message),
                Some(reason),
            ) => Some(ErrorView { domain, location, location_type, message, reason }),
            _ => None,
        },
        _ => None,
    }
}

/// The entries that `items` write, in order; `None` where one of them is no entry.
pub open spec fn details_spec(items: Seq<Json>) -> Option<Seq<ErrorView>>
    decreases items.len(),
{
    if items.len() == 0 {
        Some(Seq::empty())
    } else {
        match (details_spec(items.drop_last()), detail_spec(items.last())) {
            (Some(head), Some(last)) => Some(head.push(last)),
            _ => None,
        }
    }
}

/// The status code that the member `code` writes: zero where there is no such
/// member, `None` where it is no whole number from 0 to 65535.
pub open spec fn code_member(members: Seq<(String, Json)>) -> Option<u16> {
    match member(members, "code"@) {
        None => Some(0u16),
        Some(Json::Unsigned(code)) => if code <= u16::MAX {
            Some(code as u16)
        } else {
            None
        },
        Some(_) => None,
    }
}

/// The entries that the member `errors` writes: none where there is no such
/// member, `None` where it is no list of entries.
pub open spec fn errors_member(members: Seq<(String, Json)>) -> Option<Seq<ErrorView>> {
    match member(members, "errors"@) {
        None => Some(Seq::empty()),
        Some(Json::Array(items)) => details_spec(items@),
        Some(_) => None,
    }
}

/// The error body that `json` writes: an object with a member `error` that is an
/// object, whose members `code`, `message` and `errors` are of their kinds where
/// they are there. Other members are passed over.
pub open spec fn envelope_spec(json: Json) -> Option<ErrorResponseView> {
    match json {
        Json::Object(root) => match member(root@, "error"@) {
            Some(Json::Object(members)) => match (
                code_member(members@),
                text_member(members@, "message"@),
                errors_member(members@),
            ) {
                (Some(code), Some(message), Some(errors)) => Some(
                    ErrorResponseView { error: ErrorsView { code, errors, message } },
                ),
                _ => None,
            },
            _ => None,
        },
        _ => None,
    }
}

impl Error {
    /// Reads one entry of the `errors` list.
    pub fn from_json(json: &Json) -> (entry: Option<Error>)
        ensures
            match entry {
                Some(found) => detail_spec(*json) == Some(found@),
                None => detail_spec(*json) is None,
            },
    {
        match json {
            Json::Object(members) => {
                let domain = get_text(members, "domain");
                let location = get_text(members, "location");
                let location_type = get_text(members, "locationType");
                let message = get_text(members, "message");
                let reason = get_text(members, "reason");
                match (domain, location, location_type, message, reason) {
                    (
                        Some(domain),
                        Some(location),
                        Some(location_type),
                        Some(message),
                        Some(reason),
                    ) => Some(Error { domain, location, location_type, message, reason }),
                    _ => None,
                }
            },
            _ => None,
        }
    }
}

/// Reads the entries of the `errors` list.
fn details(items: &Vec<Json>) -> (entries: Option<Vec<Error>>)
    ensures
        match entries {
            Some(found) => details_spec(items@) == Some(views(found@)),
            None => details_spec(items@) is None,
        },
{
    let mut entries: Vec<Error> = Vec::new();
    let mut sound = true;
    let mut i: usize = 0;
    proof {
        assert(views(entries@) =~= Seq::<ErrorView>::empty());
    }
    while i < items.len()
        invariant
            i <= items.len(),
            sound ==> details_spec(items@.take(i as int)) == Some(views(entries@)),
            !sound ==> details_spec(items@.take(i as int)) is None,
        decreases items.len() - i,
    {
        proof {
            assert(items@.take(i + 1).drop_last() == items@.take(i as int));
            assert(items@.take(i + 1).last() == items@[i as int]);
        }
        match Error::from_json(&items[i]) {
            Some(entry) => {
                if sound {
                    proof {
                        assert(views(entries@.push(entry)) =~= views(entries@).push(entry@));
                    }
                    entries.push(entry);
                }
            },
            None => {
                sound = false;
            },
        }
        i += 1;
    }
    proof {
        assert(items@.take(i as int) == items@);
    }
    if sound {
        Some(entries)
    } else {
        None
    }
}

impl ErrorResponse {
    /// Reads an error body from a JSON value.
    pub fn from_json(json: &Json) -> (body: Option<ErrorResponse>)
        ensures
            match body {
                Some(found) => envelope_spec(*json) == Some(found@),
                None => envelope_spec(*json) is None,
            },
    {
        let members = match json {
            Json::Object(root) => match get(root, "error") {
                Some(Json::Object(members)) => members,
                _ => {
                    return None;
                },
            },
            _ => {
                return None;
            },
        };
        let code: u16 = match get(members, "code") {
            None => 0,
            Some(Json::Unsigned(code)) => {
                if *code <= 0xFFFF {
                    *code as u16
                } else {
                    return None;
                }
            },
            Some(_) => {
                return None;
            },
        };
        let message = match get_text(members, "message") {
            Some(message) => message,
            None => {
                return None;
            },
        };
        let errors = match get(members, "errors") {
            None => {
                let none: Vec<Error> = Vec::new();
                proof {
                    assert(views(none@) =~= Seq::<ErrorView>::empty());
                }
                none
            },
            Some(Json::Array(items)) => match details(items) {
                Some(entries) => entries,
                None => {
                    return None;
                },
            },
            Some(_) => {
                return None;
            },
        };
        Some(ErrorResponse { error: Errors { code, errors, message } })
    }
}

} // verus!
