//! Plain descriptions of HTTP exchanges: what to send, and how to read a
//! status code.

use vstd::prelude::*;

verus! {

/// The request methods that this crate sends or answers.
#[derive(Clone, Copy, Debug, PartialEq, Eq, Structural)]
pub enum Method {
    Get,
    Post,
    Head,
}

/// A request without a body: everything it says is in its URL.
#[derive(Debug)]
pub struct Request {
    pub method: Method,
    pub url: String,
}

/// What a [`Request`] is in contracts.
pub struct RequestView {
    pub method: Method,
    pub url: Seq<char>,
}

impl View for Request {
    type V = RequestView;

    open spec fn view(&self) -> RequestView {
        RequestView { method: self.method, url: self.url@ }
    }
}

/// Whether an HTTP status code reports success, that is, lies in 200..=299.
pub open spec fn status_is_success(status: u16) -> bool {
    200 <= status < 300
}

/// Tells whether `status` is a success status.
pub fn is_success(status: u16) -> (ok: bool)
    ensures
        ok == status_is_success(status),
{
    200 <= status && status < 300
}

} // verus!
