//! One saved request and the outcome of its last dispatch.

use crate::method::{next_method, spec_next_method, Method};
use vstd::prelude::*;

verus! {

/// The outcome of a dispatch as plain text.
pub struct RequestResultView {
    pub body: Option<Seq<char>>,
    pub headers: Option<Seq<char>>,
    pub cookies: Option<Seq<char>>,
}

impl RequestResultView {
    /// Headers and cookies are present together or not at all, and a result
    /// that has them has a body too.
    pub open spec fn wf(self) -> bool {
        &&& self.headers is Some <==> self.cookies is Some
        &&& self.headers is Some ==> self.body is Some
    }

    /// The result of a request that was never dispatched.
    pub open spec fn empty() -> RequestResultView {
        RequestResultView { body: None, headers: None, cookies: None }
    }

    /// The result of a dispatch that got a response.
    pub open spec fn success(
        body: Seq<char>,
        headers: Seq<char>,
        cookies: Seq<char>,
    ) -> RequestResultView {
        RequestResultView { body: Some(body), headers: Some(headers), cookies: Some(cookies) }
    }

    /// The result of a dispatch that failed before any response came.
    pub open spec fn failure(description: Seq<char>) -> RequestResultView {
        RequestResultView { body: Some(description), headers: None, cookies: None }
    }
}

/// The outcome of the most recent dispatch of a request.
#[derive(Debug)]
pub struct RequestResult {
    body: Option<String>,
    headers: Option<String>,
    cookies: Option<String>,
}

impl View for RequestResult {
    type V = RequestResultView;

    closed spec fn view(&self) -> RequestResultView {
        RequestResultView {
            body: self.body.deep_view(),
            headers: self.headers.deep_view(),
            cookies: self.cookies.deep_view(),
        }
    }
}

impl RequestResult {
    #[verifier::type_invariant]
    closed spec fn inv(self) -> bool {
        self@.wf()
    }

    /// The result of a request that was never dispatched.
    pub fn empty() -> (result: RequestResult)
        ensures
            result@ == RequestResultView::empty(),
    {
        RequestResult { body: None, headers: None, cookies: None }
    }

    /// The result of a dispatch that got a response.
    pub fn success(body: String, headers: String, cookies: String) -> (result: RequestResult)
        ensures
            result@ == RequestResultView::success(body@, headers@, cookies@),
    {
        RequestResult { body: Some(body), headers: Some(headers), cookies: Some(cookies) }
    }

    /// The result of a dispatch that failed: `description` says how.
    pub fn failure(description: String) -> (result: RequestResult)
        ensures
            result@ == RequestResultView::failure(description@),
    {
        RequestResult { body: Some(description), headers: None, cookies: None }
    }

    /// The response payload, or the description of the failure.
    pub fn body(&self) -> (body: &Option<String>)
        ensures
            body.deep_view() == self@.body,
            self@.wf(),
    {
        proof {
            use_type_invariant(self);
        }
        &self.body
    }

    /// The response headers, one `name: value` per line.
    pub fn headers(&self) -> (headers: &Option<String>)
        ensures
            headers.deep_view() == self@.headers,
            self@.wf(),
    {
        proof {
            use_type_invariant(self);
        }
        &self.headers
    }

    /// The response cookies, one `name: value` per line.
    pub fn cookies(&self) -> (cookies: &Option<String>)
        ensures
            cookies.deep_view() == self@.cookies,
            self@.wf(),
    {
        proof {
            use_type_invariant(self);
        }
        &self.cookies
    }
}

/// A saved request as plain values.
pub struct RequestView {
    pub name: Seq<char>,
    pub url: Seq<char>,
    pub method: Method,
    pub body: Option<Seq<char>>,
    pub result: RequestResultView,
}

impl RequestView {
    /// A request as it is created: only its name is given.
    pub open spec fn new(name: Seq<char>) -> RequestView {
        RequestView {
            name,
            url: Seq::empty(),
            method: Method::Get,
            body: None,
            result: RequestResultView::empty(),
        }
    }

    /// The text that a body editor shows for this request.
    pub open spec fn body_text(self) -> Seq<char> {
        match self.body {
            Some(body) => body,
            None => Seq::empty(),
        }
    }

    /// This request with `url` as its URL.
    pub open spec fn with_url(self, url: Seq<char>) -> RequestView {
        RequestView { url, ..self }
    }

    /// This request with `method` as its method.
    pub open spec fn with_method(self, method: Method) -> RequestView {
        RequestView { method, ..self }
    }

    /// This request with `body` as its body.
    pub open spec fn with_body(self, body: Option<Seq<char>>) -> RequestView {
        RequestView { body, ..self }
    }

    /// This request with `result` as the outcome of its last dispatch.
    pub open spec fn with_result(self, result: RequestResultView) -> RequestView {
        RequestView { result, ..self }
    }
}

/// One saved request definition and the outcome of its last dispatch.
#[derive(Debug)]
pub struct Request {
    name: String,
    url: String,
    method: Method,
    body: Option<String>,
    result: RequestResult,
}

impl View for Request {
    type V = RequestView;

    closed spec fn view(&self) -> RequestView {
        RequestView {
            name: self.name@,
            url: self.url@,
            method: self.method,
            body: self.body.deep_view(),
            result: self.result@,
        }
    }
}

impl Request {
    /// A request called `name`, with an empty URL, the method GET, no body
    /// and no result.
    pub fn new(name: String) -> (request: Request)
        ensures
            request@ == RequestView::new(name@),
    {
        Request {
            name,
            url: String::new(),
            method: Method::Get,
            body: None,
            result: RequestResult::empty(),
        }
    }

    /// The name under which the request is shown. It never changes.
    pub fn name(&self) -> (name: &String)
        ensures
            name@ == self@.name,
    {
        &self.name
    }

    /// The target URL; it may be empty.
    pub fn url(&self) -> (url: &String)
        ensures
            url@ == self@.url,
    {
        &self.url
    }

    /// The HTTP method.
    pub fn method(&self) -> (method: Method)
        ensures
            method == self@.method,
    {
        self.method
    }

    /// The body: `None` where the request has none, which is not the same
    /// as an empty body.
    pub fn body(&self) -> (body: &Option<String>)
        ensures
            body.deep_view() == self@.body,
    {
        &self.body
    }

    /// The outcome of the last dispatch.
    pub fn result(&self) -> (result: &RequestResult)
        ensures
            result@ == self@.result,
    {
        &self.result
    }

    /// The text that a body editor shows for this request: its body, or
    /// the empty text where it has none.
    pub fn body_text(&self) -> (text: String)
        ensures
            text@ == self@.body_text(),
    {
        match &self.body {
            Some(body) => body.clone(),
            None => String::new(),
        }
    }

    /// Replaces the URL.
    pub fn set_url(&mut self, url: String)
        ensures
            final(self)@ == old(self)@.with_url(url@),
    {
        self.url = url;
    }

    /// Replaces the method.
    pub fn set_method(&mut self, method: Method)
        ensures
            final(self)@ == old(self)@.with_method(method),
    {
        self.method = method;
    }

    /// Advances the method by one step of the cycle.
    pub fn cycle_method(&mut self)
        ensures
            final(self)@ == old(self)@.with_method(spec_next_method(old(self)@.method)),
    {
        self.method = next_method(&self.method);
    }

    /// Replaces the body.
    pub fn set_body(&mut self, body: Option<String>)
        ensures
            final(self)@ == old(self)@.with_body(body.deep_view()),
    {
        self.body = body;
    }

    /// Replaces the outcome of the last dispatch.
    pub fn set_result(&mut self, result: RequestResult)
        ensures
            final(self)@ == old(self)@.with_result(result@),
    {
        self.result = result;
    }
}

} // verus!
