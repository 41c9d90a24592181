use vstd::prelude::*;

mod app_keys_list;
mod metrics_hierarchy;
mod usage_report;

pub use app_keys_list::AppKeysList;
pub use metrics_hierarchy::children_contain;
pub use metrics_hierarchy::hierarchy_key_idx;
pub use metrics_hierarchy::hierarchy_pos;
pub use metrics_hierarchy::hierarchy_sorted;
pub use metrics_hierarchy::parent_in;
pub use metrics_hierarchy::MetricsHierarchy;
pub use usage_report::period_parses_to;
pub use usage_report::{Period, PeriodTime, UsageReport, UsageReportError, UsageReports};

verus! {

/// The outcome of an authorization call: a parsed status, or the service's
/// error report.
#[derive(Debug, Clone, PartialEq)]
pub enum Authorization {
    Status(AuthorizationStatus),
    Error(AuthorizationError),
}

/// The parsed body of an authorization status.
#[derive(Debug, Clone, PartialEq)]
pub struct AuthorizationStatus {
    pub authorized: bool,
    pub reason: Option<String>,
    pub plan: String,
    pub usage_reports: Option<UsageReports>,
    pub metrics_hierarchy: Option<MetricsHierarchy>,
    pub app_keys: Option<AppKeysList>,
}

/// The error report of a denied or failed authorization.
#[derive(Debug, Clone, PartialEq)]
pub struct AuthorizationError {
    pub code: String,
    pub description: String,
}

/// A metric name.
#[derive(Debug, Clone, PartialEq)]
pub struct Metric(pub String);

impl Authorization {
    pub fn is_status(&self) -> (r: bool)
        ensures
            r == (*self is Status),
    {
        matches!(self, Self::Status(_))
    }

    pub fn is_error(&self) -> (r: bool)
        ensures
            r == (*self is Error),
    {
        matches!(self, Self::Error(_))
    }

    /// Splits the outcome: the Ok side carries the status, the Err side the
    /// parsed error report, which is not itself a failure of this library.
    pub fn into_inner(self) -> (r: Result<AuthorizationStatus, AuthorizationError>)
        ensures
            match self {
                Self::Status(st) => r == Ok::<AuthorizationStatus, AuthorizationError>(st),
                Self::Error(err) => r == Err::<AuthorizationStatus, AuthorizationError>(err),
            },
    {
        match self {
            Self::Status(st) => Ok(st),
            Self::Error(err) => Err(err),
        }
    }
}

impl AuthorizationStatus {
    /// Builds a status from its parts.
    pub fn new(
        authorized: bool,
        reason: Option<String>,
        plan: String,
        usage_reports: Option<UsageReports>,
        metrics_hierarchy: Option<MetricsHierarchy>,
        app_keys: Option<AppKeysList>,
    ) -> (r: Self)
        ensures
            r == (AuthorizationStatus {
                authorized,
                reason,
                plan,
                usage_reports,
                metrics_hierarchy,
                app_keys,
            }),
    {
        Self { authorized, reason, plan, usage_reports, metrics_hierarchy, app_keys }
    }

    pub fn is_authorized(&self) -> (r: bool)
        ensures
            r == self.authorized,
    {
        self.authorized
    }

    pub fn reason(&self) -> (r: Option<&str>)
        ensures
            match self.reason {
                Some(s) => r matches Some(x) && x@ == s@,
                None => r is None,
            },
    {
        match &self.reason {
            Some(s) => Some(s.as_str()),
            None => None,
        }
    }

    /// Ok exactly when authorized; otherwise the reason, or a fixed text
    /// when the service gave none.
    pub fn authorized(&self) -> (r: Result<(), &str>)
        ensures
            self.authorized <==> r is Ok,
            !self.authorized ==> (r matches Err(s) && s@ == (match self.reason {
                Some(reason) => reason@,
                None => "unspecified reason"@,
            })),
    {
        if self.authorized {
            Ok(())
        } else {
            match &self.reason {
                Some(s) => Err(s.as_str()),
                None => Err("unspecified reason"),
            }
        }
    }

    pub fn plan(&self) -> (r: &str)
        ensures
            r@ == self.plan@,
    {
        self.plan.as_str()
    }

    pub fn app_keys(&self) -> (r: Option<&AppKeysList>)
        ensures
            match self.app_keys {
                Some(_) => r matches Some(k) && *k == self.app_keys->Some_0,
                None => r is None,
            },
    {
        self.app_keys.as_ref()
    }

    pub fn usage_reports(&self) -> (r: Option<&Vec<UsageReport>>)
        ensures
            match self.usage_reports {
                Some(ur) => r matches Some(v) && *v == ur->UsageReports_0,
                None => r is None,
            },
    {
        match &self.usage_reports {
            Some(ur) => Some(ur.as_vec()),
            None => None,
        }
    }

    pub fn usage_reports_mut(&mut self) -> (r: Option<&mut Vec<UsageReport>>)
        ensures
            old(self).usage_reports is None ==> r is None && *final(self) == *old(self),
            old(self).usage_reports is Some ==> (r matches Some(v) && v@ == old(
                self,
            ).usage_reports->Some_0->UsageReports_0@ && ({
                &&& final(self).usage_reports matches Some(ur2)
                &&& ur2->UsageReports_0@ == final(v)@
                &&& final(self).authorized == old(self).authorized
                &&& final(self).reason == old(self).reason
                &&& final(self).plan == old(self).plan
                &&& final(self).metrics_hierarchy == old(self).metrics_hierarchy
                &&& final(self).app_keys == old(self).app_keys
            })),
    {
        match &mut self.usage_reports {
            Some(ur) => Some(ur.as_vec_mut()),
            None => None,
        }
    }

    pub fn hierarchy(&self) -> (r: Option<&MetricsHierarchy>)
        ensures
            match self.metrics_hierarchy {
                Some(_) => r matches Some(h) && *h == self.metrics_hierarchy->Some_0,
                None => r is None,
            },
    {
        self.metrics_hierarchy.as_ref()
    }
}

impl AuthorizationError {
    pub fn code(&self) -> (r: &str)
        ensures
            r@ == self.code@,
    {
        self.code.as_str()
    }

    pub fn description(&self) -> (r: &str)
        ensures
            r@ == self.description@,
    {
        self.description.as_str()
    }
}

} // verus!
