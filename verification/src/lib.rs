//! An error-classification and response-rendering layer for request handlers.
//!
//! A raw failure is first turned into a [`errors::WebError`]: a record with an
//! optional status, a mandatory private (diagnostic) message and an optional
//! public (disclosed) message. Handler code annotates it through the
//! [`errors::ApiResultExt`] chain, and the renderer turns the outcome into a
//! status plus a JSON envelope body. The core guarantee is that the private
//! message is never disclosed unless publication was requested explicitly.

use vstd::prelude::*;

pub mod envelope;
pub mod errors;
pub mod status;

verus! {

/// The wire envelope: the only shape ever serialized to a client.
/// `Success` carries the payload; `Error` carries only the already-disclosed
/// text, never a private message.
#[derive(Debug, PartialEq, Eq)]
pub enum StrictApiResponse<T> {
    Success(T),
    Error(String),
}

/// The error a client sees after decoding an `Error` envelope: exactly the
/// disclosed text.
#[derive(Debug)]
pub struct ApiError(String);

impl View for ApiError {
    type V = Seq<char>;

    closed spec fn view(&self) -> Seq<char> {
        self.0@
    }
}

impl ApiError {
    /// The disclosed error text carried by this error.
    pub fn message(&self) -> (r: &String)
        ensures
            r@ == self@,
    {
        &self.0
    }
}

impl<T> StrictApiResponse<T> {
    /// Unwraps the envelope into a plain `Result`: the payload on success,
    /// the disclosed text (as an [`ApiError`]) on error.
    pub fn success(self) -> (r: Result<T, ApiError>)
        ensures
            (match self {
                StrictApiResponse::Success(v) => r matches Ok(x) && x == v,
                StrictApiResponse::Error(m) => r matches Err(e) && e@ == m@,
            }),
    {
        match self {
            StrictApiResponse::Success(x) => Ok(x),
            StrictApiResponse::Error(err) => Err(ApiError(err)),
        }
    }
}

} // verus!
