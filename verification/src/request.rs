use vstd::prelude::*;

use crate::http::parameters::query_render;
use crate::params_view;
use crate::util::chars::{chars_of, push_all, string_of};

verus! {

/// Implemented by values that can render themselves as parameter pairs.
pub trait ToParams {
    fn to_params(&self) -> Vec<(String, String)>;
}

/// Implemented by values that can assemble a full request.
pub trait ToRequest {
    fn to_request(&self) -> Request;
}

/// A plain request: method and endpoint names, parameter pairs and an
/// optional body.
#[derive(Debug, Clone)]
pub struct Request {
    pub method: String,
    pub endpoint: String,
    pub params: Vec<(String, String)>,
    pub body: Option<String>,
}

impl Request {
    pub fn new(method: String, endpoint: String, params: Vec<(String, String)>, body: Option<
        String,
    >) -> (r: Request)
        ensures
            r == (Request { method, endpoint, params, body }),
    {
        Request { method, endpoint, params, body }
    }

    pub fn method(&self) -> (r: &str)
        ensures
            r@ == self.method@,
    {
        self.method.as_str()
    }

    pub fn endpoint(&self) -> (r: &str)
        ensures
            r@ == self.endpoint@,
    {
        self.endpoint.as_str()
    }

    pub fn params(&self) -> (r: &Vec<(String, String)>)
        ensures
            r == self.params,
    {
        &self.params
    }

    /// The parameters rendered as a query string.
    pub fn url_params(&self) -> (r: String)
        ensures
            r@ == query_render(params_view(self.params@)),
    {
        crate::http::parameters::render_query(self.params.as_slice())
    }

    /// The endpoint followed by a question mark and the rendered parameters.
    pub fn path(&self) -> (r: String)
        ensures
            r@ == self.endpoint@ + seq!['?'] + query_render(params_view(self.params@)),
    {
        let q = self.url_params();
        let mut out = chars_of(self.endpoint.as_str());
        out.push('?');
        let qc = chars_of(q.as_str());
        push_all(&qc, &mut out);
        string_of(&out)
    }

    pub fn body(&self) -> (r: Option<&str>)
        ensures
            match self.body {
                Some(b) => r matches Some(s) && s@ == b@,
                None => r is None,
            },
    {
        match &self.body {
            Some(body) => Some(body.as_str()),
            None => None,
        }
    }
}

} // verus!
