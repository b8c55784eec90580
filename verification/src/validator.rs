//! Response validation: the errors a request can be rejected with, the
//! validator hook and the default validator.

use vstd::prelude::*;

use crate::RequestKey;

verus! {

/// One header line of a response: its name and the raw bytes of its value.
#[derive(Debug, Clone)]
pub struct Header {
    pub name: String,
    pub value: Vec<u8>,
}

/// The mathematical content of a [`Header`].
pub ghost struct HeaderView {
    pub name: Seq<char>,
    pub value: Seq<u8>,
}

impl View for Header {
    type V = HeaderView;

    open spec fn view(&self) -> HeaderView {
        HeaderView { name: self.name@, value: self.value@ }
    }
}

/// The content of a list of headers, in order.
pub open spec fn headers_view(headers: Seq<Header>) -> Seq<HeaderView> {
    Seq::new(headers.len(), |i: int| headers[i]@)
}

impl Header {
    /// A copy with the same name and value.
    pub fn duplicate(&self) -> (copy: Header)
        ensures
            copy@ == self@,
    {
        Header { name: self.name.clone(), value: self.value.clone() }
    }
}

/// A copy of a list of headers, in the same order.
pub fn duplicate_headers(headers: &Vec<Header>) -> (copy: Vec<Header>)
    ensures
        headers_view(copy@) == headers_view(headers@),
{
    let mut copy: Vec<Header> = Vec::new();
    let mut i: usize = 0;
    while i < headers.len()
        invariant
            i <= headers.len(),
            copy.len() == i,
            forall|j: int| 0 <= j < i ==> copy[j]@ == headers[j]@,
        decreases headers.len() - i,
    {
        copy.push(headers[i].duplicate());
        i += 1;
    }
    assert(headers_view(copy@) =~= headers_view(headers@));
    copy
}

/// The head of a response as the validator sees it.
#[derive(Debug, Clone)]
pub struct ResponseHead {
    /// The numeric status code.
    pub status: u16,
    /// The response headers in the order they arrived.
    pub headers: Vec<Header>,
}

/// The provided request is invalid and should not be counted.
#[derive(Debug, Clone)]
pub enum ValidationError {
    /// The returned status code is not valid.
    InvalidStatus(u16, Vec<Header>),
    /// The body of the request does not match the expected structure.
    InvalidBody(String),
    /// The request is missing a required header.
    MissingHeader(String),
    /// The request contained a header, but it was invalid.
    InvalidHeader(String),
    /// The connection was aborted by the remote server.
    ConnectionAborted,
    /// The connection took too long to respond.
    Timeout,
    /// A validation error rejected the request.
    Other(String),
}

/// The mathematical content of a [`ValidationError`].
pub ghost enum ValidationErrorView {
    InvalidStatus(u16, Seq<HeaderView>),
    InvalidBody(Seq<char>),
    MissingHeader(Seq<char>),
    InvalidHeader(Seq<char>),
    ConnectionAborted,
    Timeout,
    Other(Seq<char>),
}

impl View for ValidationError {
    type V = ValidationErrorView;

    open spec fn view(&self) -> ValidationErrorView {
        match self {
            ValidationError::InvalidStatus(code, headers) => ValidationErrorView::InvalidStatus(
                *code,
                headers_view(headers@),
            ),
            ValidationError::InvalidBody(reason) => ValidationErrorView::InvalidBody(reason@),
            ValidationError::MissingHeader(name) => ValidationErrorView::MissingHeader(name@),
            ValidationError::InvalidHeader(name) => ValidationErrorView::InvalidHeader(name@),
            ValidationError::ConnectionAborted => ValidationErrorView::ConnectionAborted,
            ValidationError::Timeout => ValidationErrorView::Timeout,
            ValidationError::Other(reason) => ValidationErrorView::Other(reason@),
        }
    }
}

/// The content of a list of errors, in order.
pub open spec fn errors_view(errors: Seq<ValidationError>) -> Seq<ValidationErrorView> {
    Seq::new(errors.len(), |i: int| errors[i]@)
}

impl ValidationError {
    /// A copy with the same content.
    pub fn duplicate(&self) -> (copy: ValidationError)
        ensures
            copy@ == self@,
    {
        match self {
            ValidationError::InvalidStatus(code, headers) => ValidationError::InvalidStatus(
                *code,
                duplicate_headers(headers),
            ),
            ValidationError::InvalidBody(reason) => ValidationError::InvalidBody(reason.clone()),
            ValidationError::MissingHeader(name) => ValidationError::MissingHeader(name.clone()),
            ValidationError::InvalidHeader(name) => ValidationError::InvalidHeader(name.clone()),
            ValidationError::ConnectionAborted => ValidationError::ConnectionAborted,
            ValidationError::Timeout => ValidationError::Timeout,
            ValidationError::Other(reason) => ValidationError::Other(reason.clone()),
        }
    }
}

/// Whether a status code is in the success class, 200 to 299.
pub open spec fn is_success_status(status: u16) -> bool {
    200 <= status < 300
}

/// What the default validator answers for a response head: nothing to report
/// for a success status, and otherwise the status with the head's headers.
pub open spec fn default_verdict(head: ResponseHead) -> Result<(), ValidationError> {
    if is_success_status(head.status) {
        Ok(())
    } else {
        Err(ValidationError::InvalidStatus(head.status, head.headers))
    }
}

/// A validating utility for checking that the responses returned by the
/// server are correct.
///
/// It runs on the task that executes the requests, so it has to be cheap.
pub trait ResponseValidator {
    /// The verdicts that this validator can give on a response. A validator
    /// that promises nothing admits every verdict.
    open spec fn may_answer(
        &self,
        request_key: RequestKey,
        head: ResponseHead,
        body: Vec<u8>,
        verdict: Result<(), ValidationError>,
    ) -> bool {
        true
    }

    fn validate(&self, request_key: RequestKey, head: ResponseHead, body: Vec<u8>) -> (verdict:
        Result<(), ValidationError>)
        ensures
            self.may_answer(request_key, head, body, verdict),
    ;
}

/// The default validator handler.
#[derive(Debug, Clone, Copy)]
pub struct DefaultValidator;

impl ResponseValidator for DefaultValidator {
    open spec fn may_answer(
        &self,
        request_key: RequestKey,
        head: ResponseHead,
        body: Vec<u8>,
        verdict: Result<(), ValidationError>,
    ) -> bool {
        verdict == default_verdict(head)
    }

    /// Accepts exactly the responses with a 2xx status.
    fn validate(&self, request_key: RequestKey, head: ResponseHead, body: Vec<u8>) -> (verdict:
        Result<(), ValidationError>) {
        if 200 <= head.status && head.status < 300 {
            Ok(())
        } else {
            Err(ValidationError::InvalidStatus(head.status, head.headers))
        }
    }
}

} // verus!
