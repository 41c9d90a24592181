use vstd::prelude::*;

use crate::application::{AppId, AppKey};
use crate::credentials::ServiceId;

verus! {

/// The keys of an application as the list-app-keys extension reports them,
/// with the service and application they belong to when given.
#[derive(Debug, Clone, PartialEq)]
pub struct AppKeysList {
    pub service_id: Option<ServiceId>,
    pub app_id: Option<AppId>,
    pub keys: Vec<AppKey>,
}

impl AppKeysList {
    /// Builds a list from its parts.
    pub fn new(service_id: Option<ServiceId>, app_id: Option<AppId>, keys: Vec<AppKey>) -> (r:
        Self)
        ensures
            r == (AppKeysList { service_id, app_id, keys }),
    {
        Self { service_id, app_id, keys }
    }

    pub fn service_id(&self) -> (r: Option<&ServiceId>)
        ensures
            match self.service_id {
                Some(_) => r matches Some(s) && *s == self.service_id->Some_0,
                None => r is None,
            },
    {
        self.service_id.as_ref()
    }

    pub fn app_id(&self) -> (r: Option<&AppId>)
        ensures
            match self.app_id {
                Some(_) => r matches Some(a) && *a == self.app_id->Some_0,
                None => r is None,
            },
    {
        self.app_id.as_ref()
    }

    pub fn keys(&self) -> (r: &[AppKey])
        ensures
            r@ == self.keys@,
    {
        self.keys.as_slice()
    }
}

} // verus!
