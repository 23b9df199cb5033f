//! HTTP exchanges as values.
//!
//! A request is described, never sent; a reply is interpreted, never read off
//! a socket. Whoever drives this crate sends each `HttpRequest` and reports
//! what came back as an `HttpOutcome`.

use vstd::prelude::*;
use vstd::string::*;

verus! {

/// The request methods the provider's protocol uses.
#[derive(Clone, Copy, Debug, PartialEq, Eq, Structural)]
pub enum HttpMethod {
    Get,
    Post,
}

/// One request to the provider: where it goes, its headers in order, and the
/// fields of its form-encoded body in order (empty for a request without body).
#[derive(Clone, Debug, PartialEq, Eq)]
pub struct HttpRequest {
    pub method: HttpMethod,
    pub url: String,
    pub headers: Vec<(String, String)>,
    pub form: Vec<(String, String)>,
}

/// The mathematical content of an `HttpRequest`.
pub ghost struct HttpRequestView {
    pub method: HttpMethod,
    pub url: Seq<char>,
    pub headers: Seq<(Seq<char>, Seq<char>)>,
    pub form: Seq<(Seq<char>, Seq<char>)>,
}

impl View for HttpRequest {
    type V = HttpRequestView;

    open spec fn view(&self) -> HttpRequestView {
        HttpRequestView {
            method: self.method,
            url: self.url@,
            headers: self.headers.deep_view(),
            form: self.form.deep_view(),
        }
    }
}

/// What became of a request: either the provider replied, with a status code
/// and a body, or the exchange could not be completed at all.
#[derive(Clone, Debug, PartialEq, Eq)]
pub enum HttpOutcome {
    Reply { status: u16, body: String },
    Failed { reason: String },
}

/// The mathematical content of an `HttpOutcome`.
pub ghost enum HttpOutcomeView {
    Reply { status: u16, body: Seq<char> },
    Failed { reason: Seq<char> },
}

impl View for HttpOutcome {
    type V = HttpOutcomeView;

    open spec fn view(&self) -> HttpOutcomeView {
        match self {
            HttpOutcome::Reply { status, body } => HttpOutcomeView::Reply {
                status: *status,
                body: body@,
            },
            HttpOutcome::Failed { reason } => HttpOutcomeView::Failed { reason: reason@ },
        }
    }
}

/// Whether a status code reports success: the codes from 200 to 299.
pub open spec fn success_status(status: u16) -> bool {
    200 <= status < 300
}

/// Whether a status code reports success.
pub fn is_success(status: u16) -> (r: bool)
    ensures
        r == success_status(status),
{
    200 <= status && status < 300
}

/// A name and a value, as a header or a form field carries them.
pub fn pair(name: &str, value: &str) -> (r: (String, String))
    ensures
        r.deep_view() == (name@, value@),
{
    (String::from_str(name), String::from_str(value))
}

/// Appends a name and a value to a list of headers or form fields.
pub fn push_pair(list: &mut Vec<(String, String)>, name: &str, value: &str)
    ensures
        final(list).deep_view() == old(list).deep_view().push((name@, value@)),
{
    let entry = pair(name, value);
    list.push(entry);
    assert(list.deep_view() =~= old(list).deep_view().push((name@, value@)));
}

} // verus!
