use vstd::prelude::*;

verus! {

/// Spec-level model of a status: its numeric code and its reason phrase.
#[verifier::ext_equal]
pub struct StatusView {
    pub code: int,
    pub reason: Seq<char>,
}

/// An HTTP-style status: a numeric code together with the human-readable
/// reason phrase that is disclosed when no public message was set.
#[derive(Debug)]
pub struct Status {
    pub code: u16,
    pub reason: String,
}

impl View for Status {
    type V = StatusView;

    open spec fn view(&self) -> StatusView {
        StatusView { code: self.code as int, reason: self.reason@ }
    }
}

pub open spec fn ok_view() -> StatusView {
    StatusView { code: 200, reason: "OK"@ }
}

pub open spec fn bad_request_view() -> StatusView {
    StatusView { code: 400, reason: "Bad Request"@ }
}

pub open spec fn forbidden_view() -> StatusView {
    StatusView { code: 403, reason: "Forbidden"@ }
}

pub open spec fn not_found_view() -> StatusView {
    StatusView { code: 404, reason: "Not Found"@ }
}

pub open spec fn internal_error_view() -> StatusView {
    StatusView { code: 500, reason: "Internal Server Error"@ }
}

impl Status {
    /// A status with an arbitrary code and reason phrase.
    pub fn new(code: u16, reason: String) -> (r: Status)
        ensures
            r@ == (StatusView { code: code as int, reason: reason@ }),
    {
        Status { code, reason }
    }

    /// 200 OK.
    pub fn ok() -> (r: Status)
        ensures
            r@ == ok_view(),
    {
        Status { code: 200, reason: String::from_str("OK") }
    }

    /// 400 Bad Request.
    pub fn bad_request() -> (r: Status)
        ensures
            r@ == bad_request_view(),
    {
        Status { code: 400, reason: String::from_str("Bad Request") }
    }

    /// 403 Forbidden.
    pub fn forbidden() -> (r: Status)
        ensures
            r@ == forbidden_view(),
    {
        Status { code: 403, reason: String::from_str("Forbidden") }
    }

    /// 404 Not Found.
    pub fn not_found() -> (r: Status)
        ensures
            r@ == not_found_view(),
    {
        Status { code: 404, reason: String::from_str("Not Found") }
    }

    /// 500 Internal Server Error: the default for an unclassified error.
    pub fn internal_server_error() -> (r: Status)
        ensures
            r@ == internal_error_view(),
    {
        Status { code: 500, reason: String::from_str("Internal Server Error") }
    }
}

impl Clone for Status {
    fn clone(&self) -> (r: Self)
        ensures
            r@ == self@,
    {
        Status { code: self.code, reason: self.reason.clone() }
    }
}

} // verus!
