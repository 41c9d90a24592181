use vstd::prelude::*;

use super::parameters::{query_render, spec_method_requires_body, Parameters};
use super::Method;
use crate::params_view;

verus! {

/// The parameters of a request, rendered and routed by method; an earlier
/// shape of `Parameters` kept for callers that split requests themselves.
#[derive(Clone, Debug)]
pub enum RequestParameters {
    Query(String),
    Body(String),
}

impl RequestParameters {
    /// Renders the parameters and routes them by method.
    pub fn new(method: &Method, params: &[(String, String)]) -> (r: Self)
        ensures
            if spec_method_requires_body(*method) {
                r matches RequestParameters::Body(b) && b@ == query_render(params_view(params@))
            } else {
                r matches RequestParameters::Query(q) && q@ == query_render(
                    params_view(params@),
                )
            },
    {
        match Parameters::new(method, params) {
            Parameters::Query(q) => RequestParameters::Query(q),
            Parameters::Body(b) => RequestParameters::Body(b),
        }
    }

    /// The path followed by `?` and the query, or the path alone when the
    /// parameters live in the body.
    pub fn path_and_query(&self, path: &str) -> (r: String)
        ensures
            match *self {
                RequestParameters::Query(q) => r@ == path@ + seq!['?'] + q@,
                RequestParameters::Body(_) => r@ == path@,
            },
    {
        match self {
            RequestParameters::Query(q) => {
                let mut url = path.to_owned();
                url.push('?');
                url.append(q.as_str());
                url
            },
            RequestParameters::Body(_) => path.to_owned(),
        }
    }

    /// The rendered parameters when they go to the query.
    pub fn query(&self) -> (r: Option<&str>)
        ensures
            match *self {
                RequestParameters::Query(q) => r matches Some(s) && s@ == q@,
                RequestParameters::Body(_) => r is None,
            },
    {
        match self {
            RequestParameters::Query(query) => Some(query.as_str()),
            _ => None,
        }
    }

    /// The rendered parameters when they go to the body.
    pub fn body(&self) -> (r: Option<&str>)
        ensures
            match *self {
                RequestParameters::Body(b) => r matches Some(s) && s@ == b@,
                RequestParameters::Query(_) => r is None,
            },
    {
        match self {
            RequestParameters::Body(body) => Some(body.as_str()),
            _ => None,
        }
    }

    /// Consumes the parameters and returns the rendered string.
    pub fn into_inner(self) -> (r: String)
        ensures
            match self {
                RequestParameters::Query(s) => r == s,
                RequestParameters::Body(s) => r == s,
            },
    {
        match self {
            RequestParameters::Query(s) => s,
            RequestParameters::Body(s) => s,
        }
    }

    /// Exclusive access to the rendered string, wherever it is routed.
    pub fn as_mut_string(&mut self) -> (r: &mut String)
        ensures
            (*old(self)) is Query ==> r@ == (*old(self))->Query_0@ && ((*final(self)) matches
            RequestParameters::Query(q) && q@ == final(r)@),
            (*old(self)) is Body ==> r@ == (*old(self))->Body_0@ && ((*final(self)) matches
            RequestParameters::Body(b) && b@ == final(r)@),
    {
        match self {
            RequestParameters::Query(ref mut query) => query,
            RequestParameters::Body(ref mut body) => body,
        }
    }

    /// Exclusive access to the rendered string, only when it is a query.
    pub fn query_as_mut_string(&mut self) -> (r: Option<&mut String>)
        ensures
            (*old(self)) is Query ==> (r matches Some(s) && s@ == (*old(self))->Query_0@ && ((*final(self)) matches RequestParameters::Query(q) && q@ == final(s)@)),
            (*old(self)) is Body ==> r is None && *final(self) == *old(self),
    {
        match self {
            RequestParameters::Query(ref mut query) => Some(query),
            _ => None,
        }
    }

    /// Exclusive access to the rendered string, only when it is a body.
    pub fn body_as_mut_string(&mut self) -> (r: Option<&mut String>)
        ensures
            (*old(self)) is Body ==> (r matches Some(s) && s@ == (*old(self))->Body_0@ && ((*final(self)) matches RequestParameters::Body(b) && b@ == final(s)@)),
            (*old(self)) is Query ==> r is None && *final(self) == *old(self),
    {
        match self {
            RequestParameters::Body(ref mut body) => Some(body),
            _ => None,
        }
    }

    /// Appends more rendered parameters, separated by an ampersand when
    /// something is already there.
    pub fn push(&mut self, extra_params: &[(String, String)])
        ensures
            ({
                let q = query_render(params_view(extra_params@));
                let before = match *old(self) {
                    RequestParameters::Query(s) => s@,
                    RequestParameters::Body(s) => s@,
                };
                let after = if before.len() == 0 {
                    q
                } else {
                    before + seq!['&'] + q
                };
                match *old(self) {
                    RequestParameters::Query(_) => (*final(self)) matches RequestParameters::Query(
                        s,
                    ) && s@ == after,
                    RequestParameters::Body(_) => (*final(self)) matches RequestParameters::Body(s)
                        && s@ == after,
                }
            }),
    {
        let q = super::parameters::render_query(extra_params);
        let s = self.as_mut_string();
        if !s.as_str().is_empty() {
            s.push('&');
        }
        s.append(q.as_str());
    }
}

} // verus!
