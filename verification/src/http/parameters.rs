use vstd::prelude::*;

use super::Method;
use crate::util::chars::{chars_of, join_with, push_all, string_of};
use crate::params_view;

verus! {

/// The parameters of a request, rendered as a query string and routed either
/// to the URI's query or to the body, depending on the method.
#[derive(Clone, Debug)]
pub enum Parameters {
    Query(String),
    Body(String),
}

/// Whether a method carries its parameters in the body rather than the query.
pub open spec fn spec_method_requires_body(m: Method) -> bool {
    !(m is GET || m is HEAD || m is DELETE)
}

/// Parameter pairs rendered as a query string: `key=value` fragments joined
/// by ampersands.
pub open spec fn query_render(ps: Seq<(Seq<char>, Seq<char>)>) -> Seq<char> {
    join_with(ps.map_values(|kv: (Seq<char>, Seq<char>)| kv.0 + "="@ + kv.1), seq!['&'])
}

/// Renders parameter pairs as a query string.
pub(crate) fn render_query(params: &[(String, String)]) -> (r: String)
    ensures
        r@ == query_render(params_view(params@)),
{
    let n = params.len();
    let ghost mapped = params_view(params@).map_values(
        |kv: (Seq<char>, Seq<char>)| kv.0 + "="@ + kv.1,
    );
    let mut out: Vec<char> = Vec::new();
    if n == 0 {
        return string_of(&out);
    }
    let mut k: usize = 0;
    while k < n
        invariant
            0 <= k <= n,
            n == params@.len(),
            n >= 1,
            mapped == params_view(params@).map_values(
                |kv: (Seq<char>, Seq<char>)| kv.0 + "="@ + kv.1,
            ),
            k == 0 ==> out@ == Seq::<char>::empty(),
            k >= 1 ==> out@ == join_with(mapped.take(k as int), seq!['&']),
        decreases n - k,
    {
        if k > 0 {
            out.push('&');
        }
        let kv = &params[k];
        let piece = chars_of(kv.0.as_str());
        push_all(&piece, &mut out);
        out.push('=');
        let piece = chars_of(kv.1.as_str());
        push_all(&piece, &mut out);
        k = k + 1;
        proof {
            reveal_strlit("=");
            assert("="@ =~= seq!['=']);
            assert(params_view(params@)[k - 1] == (params@[k - 1].0@, params@[k - 1].1@));
            assert(mapped[k - 1] == params@[k - 1].0@ + "="@ + params@[k - 1].1@);
            assert(mapped[k - 1] =~= params@[k - 1].0@ + seq!['='] + params@[k - 1].1@);
            if k == 1 {
                assert(out@ =~= join_with(mapped.take(1), seq!['&']));
            } else {
                assert(mapped.take(k as int).drop_last() =~= mapped.take(k - 1));
                assert(mapped.take(k as int).last() == mapped[k - 1]);
                assert(out@ =~= join_with(mapped.take(k - 1), seq!['&']) + seq!['&'] + mapped[k
                    - 1]);
            }
        }
    }
    proof {
        assert(mapped.take(n as int) =~= mapped);
    }
    string_of(&out)
}

impl Parameters {
    /// Renders the parameters and routes them by method: bodied methods get
    /// a `Body`, the others a `Query`.
    pub fn new(method: &Method, params: &[(String, String)]) -> (r: Self)
        ensures
            if spec_method_requires_body(*method) {
                r matches Parameters::Body(b) && b@ == query_render(params_view(params@))
            } else {
                r matches Parameters::Query(q) && q@ == query_render(params_view(params@))
            },
    {
        let params_s = render_query(params);
        if Self::method_requires_body(method) {
            Parameters::Body(params_s)
        } else {
            Parameters::Query(params_s)
        }
    }

    /// Whether the method carries parameters in the body.
    pub fn method_requires_body(method: &Method) -> (r: bool)
        ensures
            r == spec_method_requires_body(*method),
    {
        !(matches!(*method, Method::GET | Method::HEAD | Method::DELETE))
    }

    /// The path followed by `?` and the query, or the path alone when the
    /// parameters live in the body.
    pub fn path_and_query(&self, path: &str) -> (r: String)
        ensures
            match *self {
                Parameters::Query(q) => r@ == path@ + seq!['?'] + q@,
                Parameters::Body(_) => r@ == path@,
            },
    {
        match self {
            Parameters::Query(q) => {
                let mut url = path.to_owned();
                url.push('?');
                url.append(q.as_str());
                url
            },
            Parameters::Body(_) => path.to_owned(),
        }
    }

    /// The URI for the path plus the body to send, if any.
    pub fn uri_and_body(&self, path: &str) -> (r: (String, Option<&str>))
        ensures
            match *self {
                Parameters::Query(q) => r.0@ == path@ + seq!['?'] + q@ && r.1 is None,
                Parameters::Body(b) => r.0@ == path@ && (r.1 matches Some(s) && s@ == b@),
            },
    {
        (self.path_and_query(path), self.body())
    }

    /// The rendered parameters when they go to the query.
    pub fn query(&self) -> (r: Option<&str>)
        ensures
            match *self {
                Parameters::Query(q) => r matches Some(s) && s@ == q@,
                Parameters::Body(_) => r is None,
            },
    {
        match self {
            Parameters::Query(query) => Some(query.as_str()),
            _ => None,
        }
    }

    /// The rendered parameters when they go to the body.
    pub fn body(&self) -> (r: Option<&str>)
        ensures
            match *self {
                Parameters::Body(b) => r matches Some(s) && s@ == b@,
                Parameters::Query(_) => r is None,
            },
    {
        match self {
            Parameters::Body(body) => Some(body.as_str()),
            _ => None,
        }
    }

    /// Consumes the parameters and returns the rendered string.
    pub fn into_inner(self) -> (r: String)
        ensures
            match self {
                Parameters::Query(s) => r == s,
                Parameters::Body(s) => r == s,
            },
    {
        match self {
            Parameters::Query(s) => s,
            Parameters::Body(s) => s,
        }
    }

    /// Exclusive access to the rendered string, wherever it is routed.
    pub fn as_mut_string(&mut self) -> (r: &mut String)
        ensures
            (*old(self)) is Query ==> r@ == (*old(self))->Query_0@ && ((*final(self)) matches
            Parameters::Query(q) && q@ == final(r)@),
            (*old(self)) is Body ==> r@ == (*old(self))->Body_0@ && ((*final(self)) matches
            Parameters::Body(b) && b@ == final(r)@),
    {
        match self {
            Parameters::Query(ref mut query) => query,
            Parameters::Body(ref mut body) => body,
        }
    }

    /// Exclusive access to the rendered string, only when it is a query.
    pub fn query_as_mut_string(&mut self) -> (r: Option<&mut String>)
        ensures
            (*old(self)) is Query ==> (r matches Some(s) && s@ == (*old(self))->Query_0@ && ((*final(self)) matches Parameters::Query(q) && q@ == final(s)@)),
            (*old(self)) is Body ==> r is None && *final(self) == *old(self),
    {
        match self {
            Parameters::Query(ref mut query) => Some(query),
            _ => None,
        }
    }

    /// Exclusive access to the rendered string, only when it is a body.
    pub fn body_as_mut_string(&mut self) -> (r: Option<&mut String>)
        ensures
            (*old(self)) is Body ==> (r matches Some(s) && s@ == (*old(self))->Body_0@ && ((*final(self)) matches Parameters::Body(b) && b@ == final(s)@)),
            (*old(self)) is Query ==> r is None && *final(self) == *old(self),
    {
        match self {
            Parameters::Body(ref mut body) => Some(body),
            _ => None,
        }
    }

    /// Appends more rendered parameters, separated by an ampersand when
    /// something is already there.
    pub fn push(&mut self, extra_params: &[(String, String)])
        ensures
            ({
                let q = query_render(params_view(extra_params@));
                let before = match *old(self) {
                    Parameters::Query(s) => s@,
                    Parameters::Body(s) => s@,
                };
                let after = if before.len() == 0 {
                    q
                } else {
                    before + seq!['&'] + q
                };
                match *old(self) {
                    Parameters::Query(_) => (*final(self)) matches Parameters::Query(s) && s@
                        == after,
                    Parameters::Body(_) => (*final(self)) matches Parameters::Body(s) && s@ == after,
                }
            }),
    {
        let q = render_query(extra_params);
        let s = self.as_mut_string();
        if !s.as_str().is_empty() {
            s.push('&');
        }
        s.append(q.as_str());
    }
}

} // verus!
