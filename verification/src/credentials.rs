use vstd::prelude::*;

use crate::{params_view, push_param};

verus! {

/// A provider key credential.
#[derive(Debug, Clone, PartialEq, Eq)]
pub struct ProviderKey(String);

/// A service token credential.
#[derive(Debug, Clone, PartialEq, Eq)]
pub struct ServiceToken(String);

/// The identifier of a service.
#[derive(Debug, Clone, PartialEq, Eq)]
pub struct ServiceId(String);

impl View for ProviderKey {
    type V = Seq<char>;

    closed spec fn view(&self) -> Seq<char> {
        self.0@
    }
}

impl View for ServiceToken {
    type V = Seq<char>;

    closed spec fn view(&self) -> Seq<char> {
        self.0@
    }
}

impl View for ServiceId {
    type V = Seq<char>;

    closed spec fn view(&self) -> Seq<char> {
        self.0@
    }
}

impl ProviderKey {
    pub fn as_str(&self) -> (r: &str)
        ensures
            r@ == self@,
    {
        self.0.as_str()
    }
}

impl ServiceToken {
    pub fn as_str(&self) -> (r: &str)
        ensures
            r@ == self@,
    {
        self.0.as_str()
    }
}

impl ServiceId {
    pub fn as_str(&self) -> (r: &str)
        ensures
            r@ == self@,
    {
        self.0.as_str()
    }
}

impl From<&str> for ProviderKey {
    fn from(s: &str) -> (r: ProviderKey)
        ensures
            r@ == s@,
    {
        ProviderKey(s.to_owned())
    }
}

impl vstd::std_specs::convert::FromSpecImpl<&str> for ProviderKey {
    open spec fn obeys_from_spec() -> bool {
        false
    }

    open spec fn from_spec(s: &str) -> ProviderKey {
        arbitrary()
    }
}

impl From<String> for ProviderKey {
    fn from(s: String) -> (r: ProviderKey)
        ensures
            r@ == s@,
    {
        ProviderKey(s)
    }
}

impl vstd::std_specs::convert::FromSpecImpl<String> for ProviderKey {
    open spec fn obeys_from_spec() -> bool {
        false
    }

    open spec fn from_spec(s: String) -> ProviderKey {
        arbitrary()
    }
}

impl From<&str> for ServiceToken {
    fn from(s: &str) -> (r: ServiceToken)
        ensures
            r@ == s@,
    {
        ServiceToken(s.to_owned())
    }
}

impl vstd::std_specs::convert::FromSpecImpl<&str> for ServiceToken {
    open spec fn obeys_from_spec() -> bool {
        false
    }

    open spec fn from_spec(s: &str) -> ServiceToken {
        arbitrary()
    }
}

impl From<String> for ServiceToken {
    fn from(s: String) -> (r: ServiceToken)
        ensures
            r@ == s@,
    {
        ServiceToken(s)
    }
}

impl vstd::std_specs::convert::FromSpecImpl<String> for ServiceToken {
    open spec fn obeys_from_spec() -> bool {
        false
    }

    open spec fn from_spec(s: String) -> ServiceToken {
        arbitrary()
    }
}

impl From<&str> for ServiceId {
    fn from(s: &str) -> (r: ServiceId)
        ensures
            r@ == s@,
    {
        ServiceId(s.to_owned())
    }
}

impl vstd::std_specs::convert::FromSpecImpl<&str> for ServiceId {
    open spec fn obeys_from_spec() -> bool {
        false
    }

    open spec fn from_spec(s: &str) -> ServiceId {
        arbitrary()
    }
}

impl From<String> for ServiceId {
    fn from(s: String) -> (r: ServiceId)
        ensures
            r@ == s@,
    {
        ServiceId(s)
    }
}

impl vstd::std_specs::convert::FromSpecImpl<String> for ServiceId {
    open spec fn obeys_from_spec() -> bool {
        false
    }

    open spec fn from_spec(s: String) -> ServiceId {
        arbitrary()
    }
}

/// Credentials for a service: either a provider key or a service token.
#[derive(Debug, Clone, PartialEq, Eq)]
pub enum Credentials {
    ProviderKey(ProviderKey),
    ServiceToken(ServiceToken),
}

impl From<ProviderKey> for Credentials {
    fn from(k: ProviderKey) -> (r: Credentials)
        ensures
            r == Credentials::ProviderKey(k),
    {
        Credentials::ProviderKey(k)
    }
}

impl vstd::std_specs::convert::FromSpecImpl<ProviderKey> for Credentials {
    open spec fn obeys_from_spec() -> bool {
        true
    }

    open spec fn from_spec(k: ProviderKey) -> Credentials {
        Credentials::ProviderKey(k)
    }
}

impl From<ServiceToken> for Credentials {
    fn from(t: ServiceToken) -> (r: Credentials)
        ensures
            r == Credentials::ServiceToken(t),
    {
        Credentials::ServiceToken(t)
    }
}

impl vstd::std_specs::convert::FromSpecImpl<ServiceToken> for Credentials {
    open spec fn obeys_from_spec() -> bool {
        true
    }

    open spec fn from_spec(t: ServiceToken) -> Credentials {
        Credentials::ServiceToken(t)
    }
}

/// The parameter pair contributed by credentials: a provider key is sent as
/// `provider_key`, a service token as `service_token`.
pub open spec fn credentials_params(c: Credentials) -> Seq<(Seq<char>, Seq<char>)> {
    match c {
        Credentials::ProviderKey(k) => seq![("provider_key"@, k@)],
        Credentials::ServiceToken(t) => seq![("service_token"@, t@)],
    }
}

impl Credentials {
    /// Creates `Credentials` from a provider key.
    pub fn from_key<T: Into<ProviderKey>>(key: T) -> (r: Self)
        ensures
            r matches Credentials::ProviderKey(k) && call_ensures(
                <T as Into<ProviderKey>>::into,
                (key,),
                k,
            ),
    {
        Credentials::ProviderKey(key.into())
    }

    /// Creates `Credentials` from a service token.
    pub fn from_token<T: Into<ServiceToken>>(token: T) -> (r: Self)
        ensures
            r matches Credentials::ServiceToken(t) && call_ensures(
                <T as Into<ServiceToken>>::into,
                (token,),
                t,
            ),
    {
        Credentials::ServiceToken(token.into())
    }

    /// Appends this credential's parameter pair.
    pub fn to_params(&self, extendable: &mut Vec<(String, String)>)
        ensures
            params_view(final(extendable)@) == params_view(old(extendable)@) + credentials_params(
                *self,
            ),
    {
        match self {
            Credentials::ProviderKey(k) => {
                push_param(extendable, "provider_key".to_owned(), k.0.clone());
            },
            Credentials::ServiceToken(t) => {
                push_param(extendable, "service_token".to_owned(), t.0.clone());
            },
        }
        proof {
            assert(params_view(extendable@) =~= params_view(old(extendable)@)
                + credentials_params(*self));
        }
    }
}

} // verus!
