use vstd::prelude::*;

use crate::application::{application_params, Application};
use crate::extensions::Extensions;
use crate::request::{Request, ToRequest};
use crate::service::{service_params, Service};
use crate::usage::{usage_params, Usage};
use crate::user::{user_params, User};
use crate::{params_view, push_param};

verus! {

/// The type of an API call.
#[derive(Clone, Copy, Debug, PartialEq, Eq, Structural)]
pub enum Type {
    Authorize,
    AuthRep,
    Report,
}

/// A single-transaction API call: its type, service, application, and
/// optional user, usage and extensions.
#[derive(Debug, Clone, Copy)]
pub struct Info<'service, 'app, 'user, 'usage, 'extensions> {
    pub kind: Type,
    pub service: &'service Service,
    pub application: &'app Application,
    pub user: Option<&'user User>,
    pub usage: Option<&'usage Usage<'usage>>,
    pub extensions: Option<&'extensions Extensions>,
}

/// The parameter pairs of a call: the service's, the application's, then the
/// user's and the usage's when they are set.
pub open spec fn info_params(i: Info) -> Seq<(Seq<char>, Seq<char>)> {
    service_params(*i.service) + application_params(*i.application) + (match i.user {
        Some(u) => user_params(*u),
        None => Seq::empty(),
    }) + (match i.usage {
        Some(u) => usage_params(*u),
        None => Seq::empty(),
    })
}

/// The endpoint a call goes to: report posts to the transactions endpoint,
/// and the authorize and auth-rep calls switch to the OAuth endpoints when
/// the application or the user carries an OAuth token.
pub open spec fn info_endpoint(i: Info) -> (Seq<char>, Seq<char>) {
    let oauth = *i.application is OAuthToken || (i.user matches Some(u) && *u is OAuthToken);
    match i.kind {
        Type::Report => ("POST"@, "/transactions.xml"@),
        Type::Authorize => if oauth {
            ("GET"@, "/transactions/oauth_authorize.xml"@)
        } else {
            ("GET"@, "/transactions/authorize.xml"@)
        },
        Type::AuthRep => if oauth {
            ("GET"@, "/transactions/oauth_authrep.xml"@)
        } else {
            ("GET"@, "/transactions/authrep.xml"@)
        },
    }
}

/// A builder for an `Info`; the type and the application must be set before
/// `build`.
#[derive(Clone, Copy, Debug)]
pub struct Builder<'service, 'app, 'user, 'usage, 'extensions> {
    pub service: &'service Service,
    pub kind: Option<Type>,
    pub application: Option<&'app Application>,
    pub user: Option<&'user User>,
    pub usage: Option<&'usage Usage<'usage>>,
    pub extensions: Option<&'extensions Extensions>,
}

impl<'service, 'app, 'user, 'usage, 'extensions> Builder<
    'service,
    'app,
    'user,
    'usage,
    'extensions,
> {
    pub fn service(&mut self, s: &'service Service) -> (r: &mut Self)
        ensures
            *r == (Builder { service: s, ..*old(self) }),
            *final(r) == *final(self),
    {
        self.service = s;
        self
    }

    pub fn kind(&mut self, t: Type) -> (r: &mut Self)
        ensures
            *r == (Builder { kind: Some(t), ..*old(self) }),
            *final(r) == *final(self),
    {
        self.kind = Some(t);
        self
    }

    pub fn app(&mut self, a: &'app Application) -> (r: &mut Self)
        ensures
            *r == (Builder { application: Some(a), ..*old(self) }),
            *final(r) == *final(self),
    {
        self.application = Some(a);
        self
    }

    pub fn user(&mut self, u: &'user User) -> (r: &mut Self)
        ensures
            *r == (Builder { user: Some(u), ..*old(self) }),
            *final(r) == *final(self),
    {
        self.user = Some(u);
        self
    }

    pub fn usage(&mut self, usage: &'usage Usage<'usage>) -> (r: &mut Self)
        ensures
            *r == (Builder { usage: Some(usage), ..*old(self) }),
            *final(r) == *final(self),
    {
        self.usage = Some(usage);
        self
    }

    pub fn extensions(&mut self, extensions: &'extensions Extensions) -> (r: &mut Self)
        ensures
            *r == (Builder { extensions: Some(extensions), ..*old(self) }),
            *final(r) == *final(self),
    {
        self.extensions = Some(extensions);
        self
    }

    /// Builds the call; fails exactly when the type or the application is
    /// missing.
    pub fn build(&self) -> (r: Result<
        Info<'service, 'app, 'user, 'usage, 'extensions>,
        crate::errors::Error,
    >)
        ensures
            r is Err <==> (self.kind is None || self.application is None),
            r matches Ok(i) ==> {
                &&& self.kind matches Some(k) && i.kind == k
                &&& i.service == self.service
                &&& self.application matches Some(a) && i.application == a
                &&& i.user == self.user
                &&& i.usage == self.usage
                &&& i.extensions == self.extensions
            },
    {
        let kind = match self.kind {
            Some(k) => k,
            None => {
                return Err(crate::errors::Error::BuilderPatternBuildErr);
            },
        };
        let app = match self.application {
            Some(a) => a,
            None => {
                return Err(crate::errors::Error::BuilderPatternBuildErr);
            },
        };
        Ok(Info::new(kind, self.service, app, self.user, self.usage, self.extensions))
    }
}

impl<'service, 'app, 'user, 'usage, 'extensions> Info<'service, 'app, 'user, 'usage, 'extensions> {
    /// A builder over the given service.
    pub fn builder(service: &'service Service) -> (r: Builder<
        'service,
        'app,
        'user,
        'usage,
        'extensions,
    >)
        ensures
            r.service == service,
            r.kind is None,
            r.application is None,
            r.user is None,
            r.usage is None,
            r.extensions is None,
    {
        Builder {
            service,
            kind: None,
            application: None,
            user: None,
            usage: None,
            extensions: None,
        }
    }

    pub fn new(
        kind: Type,
        service: &'service Service,
        application: &'app Application,
        user: Option<&'user User>,
        usage: Option<&'usage Usage<'usage>>,
        extensions: Option<&'extensions Extensions>,
    ) -> (r: Self)
        ensures
            r == (Info { kind, service, application, user, usage, extensions }),
    {
        Self { kind, service, application, user, usage, extensions }
    }

    pub fn kind(&self) -> (r: &Type)
        ensures
            r == self.kind,
    {
        &self.kind
    }

    pub fn service(&self) -> (r: &'service Service)
        ensures
            r == self.service,
    {
        self.service
    }

    pub fn application(&self) -> (r: &'app Application)
        ensures
            r == self.application,
    {
        self.application
    }

    pub fn user(&self) -> (r: Option<&'user User>)
        ensures
            r == self.user,
    {
        self.user
    }

    pub fn extensions(&self) -> (r: Option<&'extensions Extensions>)
        ensures
            r == self.extensions,
    {
        self.extensions
    }

    /// The call's parameter pairs.
    pub fn params(&self) -> (r: Vec<(String, String)>)
        ensures
            params_view(r@) == info_params(*self),
    {
        let mut out: Vec<(String, String)> = Vec::new();
        self.service.to_params(&mut out);
        self.application.to_params(&mut out);
        match self.user {
            Some(u) => {
                u.to_params(&mut out);
            },
            None => {},
        }
        match self.usage {
            Some(u) => {
                u.to_params(&mut out);
            },
            None => {},
        }
        proof {
            assert(params_view(out@) =~= info_params(*self));
        }
        out
    }
}

impl<'service, 'app, 'user, 'usage, 'extensions> ToRequest for Info<
    'service,
    'app,
    'user,
    'usage,
    'extensions,
> {
    /// Assembles a plain request: the method and endpoint the call's type
    /// and identity mode pick, with the call's parameters and no body.
    fn to_request(&self) -> (r: Request)
        ensures
            r.method@ == info_endpoint(*self).0,
            r.endpoint@ == info_endpoint(*self).1,
            params_view(r.params@) == info_params(*self),
            r.body is None,
    {
        let oauth = match (self.application, self.user) {
            (Application::OAuthToken(_), _) => true,
            (_, Some(User::OAuthToken(_))) => true,
            _ => false,
        };
        let (method, endpoint): (&'static str, &'static str) = match self.kind {
            Type::Report => ("POST", "/transactions.xml"),
            Type::Authorize => if oauth {
                ("GET", "/transactions/oauth_authorize.xml")
            } else {
                ("GET", "/transactions/authorize.xml")
            },
            Type::AuthRep => if oauth {
                ("GET", "/transactions/oauth_authrep.xml")
            } else {
                ("GET", "/transactions/authrep.xml")
            },
        };
        Request::new(method.to_owned(), endpoint.to_owned(), self.params(), None)
    }
}

} // verus!
