use vstd::prelude::*;

use crate::credentials::{credentials_params, Credentials, ServiceId};
use crate::{params_view, push_param};

verus! {

/// A service, identified by its id and the credentials that authorize calls
/// against it.
#[derive(Debug, Clone, PartialEq, Eq)]
pub struct Service {
    pub service_id: ServiceId,
    pub creds: Credentials,
}

/// The parameter pairs contributed by a service: its id, then its credential.
pub open spec fn service_params(s: Service) -> Seq<(Seq<char>, Seq<char>)> {
    seq![("service_id"@, s.service_id@)] + credentials_params(s.creds)
}

impl Service {
    /// Creates a new `Service` from a service id and credentials.
    pub fn new<T: Into<ServiceId>>(service_id: T, creds: Credentials) -> (r: Self)
        ensures
            r.creds == creds,
            call_ensures(<T as Into<ServiceId>>::into, (service_id,), r.service_id),
    {
        Self { service_id: service_id.into(), creds }
    }

    /// The service's id.
    pub fn service_id(&self) -> (r: &ServiceId)
        ensures
            r == self.service_id,
    {
        &self.service_id
    }

    /// The service's credentials.
    pub fn credentials(&self) -> (r: &Credentials)
        ensures
            r == self.creds,
    {
        &self.creds
    }

    /// Appends this service's parameter pairs.
    pub fn to_params(&self, extendable: &mut Vec<(String, String)>)
        ensures
            params_view(final(extendable)@) == params_view(old(extendable)@) + service_params(
                *self,
            ),
    {
        push_param(extendable, "service_id".to_owned(), self.service_id.as_str().to_owned());
        self.creds.to_params(extendable);
        proof {
            assert(params_view(extendable@) =~= params_view(old(extendable)@) + service_params(
                *self,
            ));
        }
    }
}

} // verus!
