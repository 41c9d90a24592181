use vstd::prelude::*;

use super::parameters::{query_render, spec_method_requires_body, Parameters};
use super::{HeaderMap, Method};
use crate::api_call::{api_call_params, ApiCall, Kind};
use crate::application::Application;
use crate::user::User;
use crate::version::USER_AGENT;

verus! {

/// A request ready to be handed to an HTTP client: method, endpoint path,
/// routed parameters and headers.
#[derive(Clone, Debug)]
pub struct Request {
    pub method: Method,
    pub path: &'static str,
    pub parameters: Parameters,
    pub headers: HeaderMap,
}

/// Which endpoint a call of the given kind goes to: report has its own, and
/// the authorize and auth-rep calls switch to the OAuth endpoints when the
/// application or the user is identified by an OAuth token.
pub open spec fn spec_endpoint(
    kind: Kind,
    application: Option<&Application>,
    user: Option<&User>,
) -> (Method, Seq<char>) {
    let oauth = (application matches Some(a) && *a is OAuthToken) || (user matches Some(u) && *u
        is OAuthToken);
    match kind {
        Kind::Report => (Method::POST, "/transactions.xml"@),
        Kind::Authorize => if oauth {
            (Method::GET, "/transactions/oauth_authorize.xml"@)
        } else {
            (Method::GET, "/transactions/authorize.xml"@)
        },
        Kind::AuthRep => if oauth {
            (Method::GET, "/transactions/oauth_authrep.xml"@)
        } else {
            (Method::GET, "/transactions/authrep.xml"@)
        },
    }
}

/// Copies what remains of `source` past `*offset` into the head of `dest`,
/// advances the offset to the end of `source`, and reports how many bytes
/// were copied; clients push a request body into their buffers with it.
pub fn copy_data(offset: &mut usize, source: &[u8], dest: &mut [u8]) -> (n: usize)
    requires
        *old(offset) <= source@.len(),
        source@.len() - *old(offset) <= old(dest)@.len(),
    ensures
        n == source@.len() - *old(offset),
        *final(offset) == source@.len(),
        final(dest)@.len() == old(dest)@.len(),
        forall|q: int| 0 <= q < n ==> final(dest)@[q] == source@[*old(offset) + q],
        forall|q: int| n <= q < old(dest)@.len() ==> final(dest)@[q] == old(dest)@[q],
{
    let start = *offset;
    let n_src = source.len();
    let len = n_src - start;
    let mut i: usize = 0;
    while i < len
        invariant
            n_src == source@.len(),
            start + len == n_src,
            len <= old(dest)@.len(),
            0 <= i <= len,
            dest@.len() == old(dest)@.len(),
            forall|q: int| 0 <= q < i ==> dest@[q] == source@[start + q],
            forall|q: int| i <= q < old(dest)@.len() ==> dest@[q] == old(dest)@[q],
        decreases len - i,
    {
        dest[i] = source[start + i];
        i = i + 1;
    }
    *offset = start + len;
    len
}

/// A trait each HTTP client implements to turn a `Request` into whatever the
/// client sends.
pub trait SetupRequest<'client, P, Output> {
    fn setup_request(&'client mut self, r: Request, params: P) -> Output;
}

impl Request {
    /// The method and path of the endpoint a call goes to.
    pub fn endpoint(
        kind: Kind,
        application: Option<&Application>,
        user: Option<&User>,
    ) -> (r: (Method, &'static str))
        ensures
            r.0 == spec_endpoint(kind, application, user).0,
            r.1@ == spec_endpoint(kind, application, user).1,
    {
        let oauth = match (application, user) {
            (Some(Application::OAuthToken(_)), _) => true,
            (_, Some(User::OAuthToken(_))) => true,
            _ => false,
        };
        match kind {
            Kind::Report => super::endpoints::REPORT_ENDPOINT,
            Kind::Authorize => if oauth {
                super::endpoints::OAUTH_AUTHORIZE_ENDPOINT
            } else {
                super::endpoints::AUTHORIZE_ENDPOINT
            },
            Kind::AuthRep => if oauth {
                super::endpoints::OAUTH_AUTHREP_ENDPOINT
            } else {
                super::endpoints::AUTHREP_ENDPOINT
            },
        }
    }

    /// The URI for this request plus the body to send, if any.
    pub fn uri_and_body(&self) -> (r: (String, Option<&str>))
        ensures
            match self.parameters {
                Parameters::Query(q) => r.0@ == self.path@ + seq!['?'] + q@ && r.1 is None,
                Parameters::Body(b) => r.0@ == self.path@ && (r.1 matches Some(s) && s@ == b@),
            },
    {
        self.parameters.uri_and_body(self.path)
    }

    /// Assembles the request for an API call: endpoint by kind and identity
    /// mode, parameters routed by the endpoint's method, a `3scale-options`
    /// header when the call has extensions, and the library's `User-Agent`.
    pub fn from_api_call(apicall: &ApiCall) -> (r: Request)
        ensures
            r.method == spec_endpoint(apicall.kind(), apicall.spec_application(), apicall.spec_user()).0,
            r.path@ == spec_endpoint(apicall.kind(), apicall.spec_application(), apicall.spec_user()).1,
            ({
                let rendered = query_render(api_call_params(*apicall));
                if spec_method_requires_body(r.method) {
                    r.parameters matches Parameters::Body(b) && b@ == rendered
                } else {
                    r.parameters matches Parameters::Query(q) && q@ == rendered
                }
            }),
            match apicall.extensions() {
                Some(e) => r.headers@.len() == 2 && r.headers@[0].0@ == "3scale-options"@
                    && r.headers@[0].1@ == crate::extensions::list_wire(e@) && r.headers@[1].0@
                    == "User-Agent"@ && r.headers@[1].1@ == USER_AGENT@,
                None => r.headers@.len() == 1 && r.headers@[0].0@ == "User-Agent"@
                    && r.headers@[0].1@ == USER_AGENT@,
            },
    {
        let (method, path) = Request::endpoint(
            apicall.kind(),
            apicall.application(),
            apicall.user(),
        );
        let params = apicall.params();
        let parameters = Parameters::new(&method, params.as_slice());

        let mut headers = HeaderMap::new();
        match apicall.extensions() {
            Some(e) => {
                headers.insert("3scale-options".to_owned(), e.to_string());
                proof {
                    assert(headers@.len() == 1 && headers@[0].0@ == "3scale-options"@
                        && headers@[0].1@ == crate::extensions::list_wire(e@)) by {
                        assert(headers@ =~= Seq::<(String, String)>::empty().insert(
                            0,
                            (headers@[0].0, headers@[0].1),
                        ));
                    }
                }
            },
            None => {},
        }
        let ghost before_ua = headers@;
        proof {
            reveal_strlit("3scale-options");
            reveal_strlit("User-Agent");
            if apicall.extensions() is Some {
                assert(crate::util::chars::lex_lt("3scale-options"@, "User-Agent"@));
                assert(before_ua.drop_first() =~= Seq::<(String, String)>::empty());
                assert(super::header_pos(before_ua.drop_first(), "User-Agent"@) == 0);
                assert(super::header_pos(before_ua, "User-Agent"@) == 1);
            } else {
                assert(super::header_pos(before_ua, "User-Agent"@) == 0);
            }
        }
        headers.insert("User-Agent".to_owned(), USER_AGENT.to_owned());

        Request { method, path, parameters, headers }
    }
}

impl<'a> From<&ApiCall<'a>> for Request {
    fn from(apicall: &ApiCall<'a>) -> (r: Request)
        ensures
            call_ensures(Request::from_api_call, (apicall,), r),
    {
        Request::from_api_call(apicall)
    }
}

impl<'a> vstd::std_specs::convert::FromSpecImpl<&ApiCall<'a>> for Request {
    open spec fn obeys_from_spec() -> bool {
        false
    }

    open spec fn from_spec(apicall: &ApiCall<'a>) -> Request {
        arbitrary()
    }
}

} // verus!
