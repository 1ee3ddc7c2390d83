use vstd::prelude::*;

use crate::status::{
    bad_request_view, forbidden_view, internal_error_view, not_found_view, ok_view, Status,
    StatusView,
};
use crate::StrictApiResponse;

verus! {

/// Spec-level model of a classified error: optional status, mandatory
/// private description, optional disclosed description.
#[verifier::ext_equal]
pub struct ErrView {
    pub status: Option<StatusView>,
    pub private_error: Seq<char>,
    pub public_error: Option<Seq<char>>,
}

/// The classification a raw failure receives when it first enters the
/// pipeline: no status, the raw text as the private message, nothing
/// disclosed.
pub open spec fn raw_view(msg: Seq<char>) -> ErrView {
    ErrView { status: None, private_error: msg, public_error: None }
}

pub open spec fn with_status_view(e: ErrView, s: StatusView) -> ErrView {
    ErrView { status: Some(s), ..e }
}

pub open spec fn with_private_view(e: ErrView, m: Seq<char>) -> ErrView {
    ErrView { private_error: m, ..e }
}

pub open spec fn with_public_view(e: ErrView, m: Seq<char>) -> ErrView {
    ErrView { public_error: Some(m), ..e }
}

pub open spec fn publish_view(e: ErrView) -> ErrView {
    ErrView { public_error: Some(e.private_error), ..e }
}

/// The disclosure rule: the text a caller is shown is the public message if
/// one was set, else the reason phrase of the status if one was set, else
/// the generic internal-error reason phrase. The private message is never
/// chosen here unless it was published into `public_error` beforehand.
pub open spec fn spec_public_error(e: ErrView) -> Seq<char> {
    match e.public_error {
        Some(m) => m,
        None => match e.status {
            Some(s) => s.reason,
            None => internal_error_view().reason,
        },
    }
}

/// A classified error: the one error kind of this crate. Created from a raw
/// failure, annotated by the chainable mutators, consumed by the renderer.
#[derive(Debug)]
pub struct WebError {
    status: Option<Status>,
    private_error: String,
    public_error: Option<String>,
}

impl View for WebError {
    type V = ErrView;

    closed spec fn view(&self) -> ErrView {
        ErrView {
            status: match self.status {
                Some(s) => Some(s@),
                None => None,
            },
            private_error: self.private_error@,
            public_error: match self.public_error {
                Some(m) => Some(m@),
                None => None,
            },
        }
    }
}

impl WebError {
    /// Classifies a raw failure, given as its displayable text.
    pub fn new(error: String) -> (r: WebError)
        ensures
            r@ == raw_view(error@),
    {
        WebError { status: None, private_error: error, public_error: None }
    }

    /// Sets or overwrites the status.
    pub fn with_status(self, status: Status) -> (r: WebError)
        ensures
            r@ == with_status_view(self@, status@),
    {
        WebError { status: Some(status), ..self }
    }

    /// Overwrites the private message.
    pub fn with_private_error(self, error: String) -> (r: WebError)
        ensures
            r@ == with_private_view(self@, error@),
    {
        WebError { private_error: error, ..self }
    }

    /// Discloses `error` as the public message; the private message stays
    /// private.
    pub fn with_public_error(self, error: String) -> (r: WebError)
        ensures
            r@ == with_public_view(self@, error@),
    {
        WebError { public_error: Some(error), ..self }
    }

    /// Discloses the current private message verbatim: the explicit,
    /// auditable escape hatch.
    pub fn publish_error(self) -> (r: WebError)
        ensures
            r@ == publish_view(self@),
    {
        let published = self.private_error.clone();
        WebError { public_error: Some(published), ..self }
    }

    /// Resolves the disclosed text by the disclosure rule
    /// [`spec_public_error`]: never empty, never the private message unless
    /// explicitly published.
    pub fn public_error(&self) -> (r: String)
        ensures
            r@ == spec_public_error(self@),
    {
        match &self.public_error {
            Some(m) => m.clone(),
            None => match &self.status {
                Some(status) => status.reason.clone(),
                None => String::from_str("Internal Server Error"),
            },
        }
    }
}

/// A fallible computation whose failure is already classified.
pub type ApiResult<T> = Result<T, WebError>;

/// An outcome still carrying the full classified error, before disclosure.
#[derive(Debug)]
pub enum ApiResponse<T> {
    Success(T),
    Error(WebError),
}

/// Render-time hints: the resolved status to send.
pub struct ResponseHints {
    status: Status,
}

impl View for ResponseHints {
    type V = StatusView;

    closed spec fn view(&self) -> StatusView {
        self.status@
    }
}

/// The status a classified error resolves to at render time: its own status
/// if set, else the generic internal-error status.
pub open spec fn spec_hints(e: ErrView) -> StatusView {
    match e.status {
        Some(s) => s,
        None => internal_error_view(),
    }
}

impl ResponseHints {
    /// The hints for a success: 200 OK.
    pub fn ok() -> (r: ResponseHints)
        ensures
            r@ == ok_view(),
    {
        ResponseHints { status: Status::ok() }
    }

    /// The hints for a classified error: its status, or the internal-error
    /// default.
    pub fn err(err: &WebError) -> (r: ResponseHints)
        ensures
            r@ == spec_hints(err@),
    {
        let status = match &err.status {
            Some(s) => s.clone(),
            None => Status::internal_server_error(),
        };
        ResponseHints { status }
    }

    /// The resolved status.
    pub fn status(&self) -> (r: &Status)
        ensures
            r@ == self@,
    {
        &self.status
    }
}

impl<T> ApiResponse<T> {
    /// Applies the disclosure rule: a success keeps its payload and gets
    /// 200 OK; an error is reduced to its disclosed text and its resolved
    /// status. The private message never reaches the strict response.
    pub fn into_strict(self) -> (r: (StrictApiResponse<T>, ResponseHints))
        ensures
            (match self {
                ApiResponse::Success(x) => r.0 matches StrictApiResponse::Success(v) && v == x
                    && r.1@ == ok_view(),
                ApiResponse::Error(e) => r.0 matches StrictApiResponse::Error(m) && m@
                    == spec_public_error(e@) && r.1@ == spec_hints(e@),
            }),
    {
        match self {
            ApiResponse::Success(x) => (StrictApiResponse::Success(x), ResponseHints::ok()),
            ApiResponse::Error(x) => {
                let msg = x.public_error();
                let hints = ResponseHints::err(&x);
                (StrictApiResponse::Error(msg), hints)
            },
        }
    }
}

/// A failure value that can be classified: implemented by `String` (a raw
/// displayable failure, whose text seeds the private message) and by
/// [`WebError`] itself (pass-through).
pub trait WebFail: Sized {
    /// The classified model this failure converts to.
    spec fn fail_view(self) -> ErrView;

    fn fail(self) -> (r: WebError)
        ensures
            r@ == self.fail_view(),
    ;
}

impl WebFail for String {
    open spec fn fail_view(self) -> ErrView {
        raw_view(self@)
    }

    fn fail(self) -> (r: WebError) {
        WebError::new(self)
    }
}

impl WebFail for WebError {
    open spec fn fail_view(self) -> ErrView {
        self@
    }

    fn fail(self) -> (r: WebError) {
        self
    }
}

/// The annotation chain: progressively classifies the failure of any
/// fallible result whose error type is [`WebFail`]. Success values pass
/// through every operation unchanged.
pub trait ApiResultExt<T>: Sized {
    /// The success value, or the classified model of the failure.
    spec fn classified(self) -> Result<T, ErrView>;

    /// On failure, replaces the private message; status and public state
    /// untouched.
    fn private_context(self, context: String) -> (r: Result<T, WebError>)
        ensures
            (match self.classified() {
                Ok(v) => r matches Ok(x) && x == v,
                Err(e) => r matches Err(w) && w@ == with_private_view(e, context@),
            }),
    ;

    /// On failure, discloses `context` as the public message; the true cause
    /// stays private.
    fn public_context(self, context: String) -> (r: Result<T, WebError>)
        ensures
            (match self.classified() {
                Ok(v) => r matches Ok(x) && x == v,
                Err(e) => r matches Err(w) && w@ == with_public_view(e, context@),
            }),
    ;

    /// On failure, discloses the true failure message verbatim.
    fn publish_error(self) -> (r: Result<T, WebError>)
        ensures
            (match self.classified() {
                Ok(v) => r matches Ok(x) && x == v,
                Err(e) => r matches Err(w) && w@ == publish_view(e),
            }),
    ;

    /// On failure, sets the status to 400 Bad Request.
    fn bad_request(self) -> (r: Result<T, WebError>)
        ensures
            (match self.classified() {
                Ok(v) => r matches Ok(x) && x == v,
                Err(e) => r matches Err(w) && w@ == with_status_view(e, bad_request_view()),
            }),
    ;

    /// On failure, sets the status to 403 Forbidden.
    fn forbidden(self) -> (r: Result<T, WebError>)
        ensures
            (match self.classified() {
                Ok(v) => r matches Ok(x) && x == v,
                Err(e) => r matches Err(w) && w@ == with_status_view(e, forbidden_view()),
            }),
    ;

    /// On failure, sets the status to 404 Not Found.
    fn not_found(self) -> (r: Result<T, WebError>)
        ensures
            (match self.classified() {
                Ok(v) => r matches Ok(x) && x == v,
                Err(e) => r matches Err(w) && w@ == with_status_view(e, not_found_view()),
            }),
    ;
}

impl<T, E: WebFail> ApiResultExt<T> for Result<T, E> {
    open spec fn classified(self) -> Result<T, ErrView> {
        match self {
            Ok(v) => Ok(v),
            Err(e) => Err(e.fail_view()),
        }
    }

    fn private_context(self, context: String) -> (r: Result<T, WebError>) {
        match self {
            Ok(v) => Ok(v),
            Err(e) => Err(e.fail().with_private_error(context)),
        }
    }

    fn public_context(self, context: String) -> (r: Result<T, WebError>) {
        match self {
            Ok(v) => Ok(v),
            Err(e) => Err(e.fail().with_public_error(context)),
        }
    }

    fn publish_error(self) -> (r: Result<T, WebError>) {
        match self {
            Ok(v) => Ok(v),
            Err(e) => Err(e.fail().publish_error()),
        }
    }

    fn bad_request(self) -> (r: Result<T, WebError>) {
        match self {
            Ok(v) => Ok(v),
            Err(e) => Err(e.fail().with_status(Status::bad_request())),
        }
    }

    fn forbidden(self) -> (r: Result<T, WebError>) {
        match self {
            Ok(v) => Ok(v),
            Err(e) => Err(e.fail().with_status(Status::forbidden())),
        }
    }

    fn not_found(self) -> (r: Result<T, WebError>) {
        match self {
            Ok(v) => Ok(v),
            Err(e) => Err(e.fail().with_status(Status::not_found())),
        }
    }
}

/// A classified error with the given status and the message used as both the
/// private and the public text: disclosure opted into at construction.
pub fn err_msg(status: Status, msg: String) -> (r: WebError)
    ensures
        r@ == (ErrView {
            status: Some(status@),
            private_error: msg@,
            public_error: Some(msg@),
        }),
{
    let public = msg.clone();
    WebError { status: Some(status), private_error: msg, public_error: Some(public) }
}

/// The bad-request-with-message shortcut: 400 with `msg` disclosed.
pub fn bad_request_msg(msg: String) -> (r: WebError)
    ensures
        r@ == (ErrView {
            status: Some(bad_request_view()),
            private_error: msg@,
            public_error: Some(msg@),
        }),
{
    err_msg(Status::bad_request(), msg)
}

/// One step of an annotation chain, at the model level: each variant is the
/// effect of the matching [`ApiResultExt`] operation on a failure.
pub enum Annotation {
    PrivateContext(Seq<char>),
    PublicContext(Seq<char>),
    PublishError,
    BadRequest,
    Forbidden,
    NotFound,
}

/// The effect of one annotation on a classified error.
pub open spec fn apply_annotation(e: ErrView, a: Annotation) -> ErrView {
    match a {
        Annotation::PrivateContext(m) => with_private_view(e, m),
        Annotation::PublicContext(m) => with_public_view(e, m),
        Annotation::PublishError => publish_view(e),
        Annotation::BadRequest => with_status_view(e, bad_request_view()),
        Annotation::Forbidden => with_status_view(e, forbidden_view()),
        Annotation::NotFound => with_status_view(e, not_found_view()),
    }
}

/// The effect of a whole annotation chain, applied left to right.
pub open spec fn apply_chain(e: ErrView, ops: Seq<Annotation>) -> ErrView
    decreases ops.len(),
{
    if ops.len() == 0 {
        e
    } else {
        apply_chain(apply_annotation(e, ops[0]), ops.skip(1))
    }
}

/// A chain without `PublishError` can change the status and the public
/// message only in ways that do not read the private message: two errors
/// that agree on status and public message still agree after the chain.
proof fn lemma_chain_disclosure(a: ErrView, b: ErrView, ops: Seq<Annotation>)
    requires
        a.status == b.status,
        a.public_error == b.public_error,
        forall|i: int| 0 <= i < ops.len() ==> !(ops[i] is PublishError),
    ensures
        apply_chain(a, ops).status == apply_chain(b, ops).status,
        apply_chain(a, ops).public_error == apply_chain(b, ops).public_error,
    decreases ops.len(),
{
    if ops.len() > 0 {
        let a1 = apply_annotation(a, ops[0]);
        let b1 = apply_annotation(b, ops[0]);
        assert(a1.status == b1.status);
        assert(a1.public_error == b1.public_error);
        assert(forall|i: int| 0 <= i < ops.skip(1).len() ==> ops.skip(1)[i] == ops[i + 1]);
        lemma_chain_disclosure(a1, b1, ops.skip(1));
    }
}

/// No annotation chain free of `publish_error` ever lets the raw failure
/// text reach the disclosed message: pushing two different raw failures
/// through the same chain discloses exactly the same text, so the
/// disclosure cannot depend on the raw text at all.
pub proof fn lemma_no_publish_no_leak(ops: Seq<Annotation>, raw1: Seq<char>, raw2: Seq<char>)
    requires
        forall|i: int| 0 <= i < ops.len() ==> !(ops[i] is PublishError),
    ensures
        spec_public_error(apply_chain(raw_view(raw1), ops)) == spec_public_error(
            apply_chain(raw_view(raw2), ops),
        ),
{
    lemma_chain_disclosure(raw_view(raw1), raw_view(raw2), ops);
}

/// Whether some step of the chain discloses exactly the message `m`.
pub open spec fn chain_discloses(ops: Seq<Annotation>, m: Seq<char>) -> bool {
    exists|i: int| 0 <= i < ops.len() && ops[i] == Annotation::PublicContext(m)
}

/// A chain without `PublishError` can only have copied the public message
/// from one of its own `PublicContext` steps, and can only have set the
/// status to one of the shortcut statuses.
proof fn lemma_chain_sources(e: ErrView, ops: Seq<Annotation>)
    requires
        forall|i: int| 0 <= i < ops.len() ==> !(ops[i] is PublishError),
    ensures
        (match apply_chain(e, ops).public_error {
            Some(m) => e.public_error == Some(m) || chain_discloses(ops, m),
            None => e.public_error is None,
        }),
        apply_chain(e, ops).status == e.status || apply_chain(e, ops).status == Some(
            bad_request_view(),
        ) || apply_chain(e, ops).status == Some(forbidden_view()) || apply_chain(e, ops).status
            == Some(not_found_view()),
    decreases ops.len(),
{
    if ops.len() > 0 {
        let e1 = apply_annotation(e, ops[0]);
        lemma_chain_sources(e1, ops.skip(1));
        let r = apply_chain(e, ops);
        assert(r == apply_chain(e1, ops.skip(1)));
        match r.public_error {
            Some(m) => {
                if e1.public_error == Some(m) && e.public_error != Some(m) {
                    assert(ops[0] == Annotation::PublicContext(m));
                    assert(chain_discloses(ops, m));
                }
                if chain_discloses(ops.skip(1), m) {
                    let j = choose|j: int|
                        0 <= j < ops.skip(1).len() && ops.skip(1)[j] == Annotation::PublicContext(
                            m,
                        );
                    assert(ops[j + 1] == Annotation::PublicContext(m));
                    assert(chain_discloses(ops, m));
                }
            },
            None => {},
        }
    }
}

/// The precise source of every disclosure: a raw failure pushed through any
/// chain free of `publish_error` discloses either a message some
/// `public_context` step of that very chain supplied, or a fixed reason
/// phrase — the raw failure's own text can never surface.
pub proof fn lemma_disclosure_only_from_annotations(ops: Seq<Annotation>, raw: Seq<char>)
    requires
        forall|i: int| 0 <= i < ops.len() ==> !(ops[i] is PublishError),
    ensures
        ({
            let disclosed = spec_public_error(apply_chain(raw_view(raw), ops));
            chain_discloses(ops, disclosed) || disclosed == internal_error_view().reason
                || disclosed == bad_request_view().reason || disclosed == forbidden_view().reason
                || disclosed == not_found_view().reason
        }),
{
    lemma_chain_sources(raw_view(raw), ops);
}

/// With no status set, the render-time status resolves to the generic
/// internal-error status; a status set by one of the shortcuts resolves to
/// 400, 403 or 404 respectively.
pub proof fn lemma_status_resolution(e: ErrView)
    ensures
        e.status is None ==> spec_hints(e) == internal_error_view(),
        spec_hints(apply_annotation(e, Annotation::BadRequest)).code == 400,
        spec_hints(apply_annotation(e, Annotation::Forbidden)).code == 403,
        spec_hints(apply_annotation(e, Annotation::NotFound)).code == 404,
{
}

/// Publishing twice in a row yields exactly the error that publishing once
/// yields, public message included.
pub proof fn lemma_publish_idempotent(e: ErrView)
    ensures
        publish_view(publish_view(e)) == publish_view(e),
{
}

/// Last write wins for the public message: disclosing `a` and then `b`
/// yields the same error as disclosing `b` alone.
pub proof fn lemma_public_overwrite(e: ErrView, a: Seq<char>, b: Seq<char>)
    ensures
        with_public_view(with_public_view(e, a), b) == with_public_view(e, b),
{
}

/// Last write wins for the private message as well.
pub proof fn lemma_private_overwrite(e: ErrView, a: Seq<char>, b: Seq<char>)
    ensures
        with_private_view(with_private_view(e, a), b) == with_private_view(e, b),
{
}

/// The not-found-with-message shortcut: 404 with `msg` disclosed.
pub fn not_found_msg(msg: String) -> (r: WebError)
    ensures
        r@ == (ErrView {
            status: Some(not_found_view()),
            private_error: msg@,
            public_error: Some(msg@),
        }),
{
    err_msg(Status::not_found(), msg)
}

} // verus!
