use vstd::prelude::*;

use crate::util::chars::str_eq;

verus! {

/// A moment in time as whole seconds relative to the UNIX epoch.
#[derive(Debug, Clone, Copy, PartialEq, Eq, Structural)]
pub struct PeriodTime(pub i64);

/// Why authorizing or reporting hits failed.
#[non_exhaustive]
#[derive(Debug, Copy, Clone, PartialEq, Eq, Structural)]
pub enum UsageReportError {
    /// The hits would exceed the limit by the carried amount.
    LimitsExceeded(u64),
    /// The counter would overflow its 64-bit range.
    Overflow,
}

/// The reporting period of a usage report.
#[derive(Debug, Clone, PartialEq, Eq)]
pub enum Period {
    Minute,
    Hour,
    Day,
    Week,
    Month,
    Year,
    Eternity,
    Other(String),
}

/// How a period name is read: the seven known names map to their variants,
/// anything else is kept under `Other` as given.
pub open spec fn period_parses_to(name: Seq<char>, p: Period) -> bool {
    if name == "minute"@ {
        p is Minute
    } else if name == "hour"@ {
        p is Hour
    } else if name == "day"@ {
        p is Day
    } else if name == "week"@ {
        p is Week
    } else if name == "month"@ {
        p is Month
    } else if name == "year"@ {
        p is Year
    } else if name == "eternity"@ {
        p is Eternity
    } else {
        p matches Period::Other(o) && o@ == name
    }
}

impl Period {
    /// Reads a period name as the service writes it.
    pub fn from_name(name: &str) -> (r: Period)
        ensures
            period_parses_to(name@, r),
    {
        if str_eq(name, "minute") {
            Period::Minute
        } else if str_eq(name, "hour") {
            Period::Hour
        } else if str_eq(name, "day") {
            Period::Day
        } else if str_eq(name, "week") {
            Period::Week
        } else if str_eq(name, "month") {
            Period::Month
        } else if str_eq(name, "year") {
            Period::Year
        } else if str_eq(name, "eternity") {
            Period::Eternity
        } else {
            Period::Other(name.to_owned())
        }
    }
}

/// One usage report: a metric, its period, and the counter against its
/// limit.
#[derive(Debug, Clone, PartialEq, Eq)]
pub struct UsageReport {
    pub metric: String,
    pub period: Period,
    pub period_start: PeriodTime,
    pub period_end: PeriodTime,
    pub max_value: u64,
    pub current_value: u64,
}

impl UsageReport {
    pub fn metric(&self) -> (r: &str)
        ensures
            r@ == self.metric@,
    {
        self.metric.as_str()
    }

    pub fn period(&self) -> (r: &Period)
        ensures
            r == self.period,
    {
        &self.period
    }

    pub fn period_times(&self) -> (r: (&PeriodTime, &PeriodTime))
        ensures
            *r.0 == self.period_start,
            *r.1 == self.period_end,
    {
        (&self.period_start, &self.period_end)
    }

    pub fn max_value(&self) -> (r: u64)
        ensures
            r == self.max_value,
    {
        self.max_value
    }

    pub fn current_value(&self) -> (r: u64)
        ensures
            r == self.current_value,
    {
        self.current_value
    }

    /// How many hits remain before the limit, zero when already past it.
    pub fn remaining(&self) -> (r: u64)
        ensures
            r == if self.current_value <= self.max_value {
                self.max_value - self.current_value
            } else {
                0
            },
    {
        if self.current_value <= self.max_value {
            self.max_value - self.current_value
        } else {
            0
        }
    }

    /// Whether the counter has reached its limit.
    pub fn is_limited(&self) -> (r: bool)
        ensures
            r == (self.current_value >= self.max_value),
    {
        self.current_value >= self.max_value
    }

    /// What the counter would read after `hits` more: Ok with the new value
    /// when it stays within the limit, the exceeded amount when it passes
    /// it, and `Overflow` when it cannot be counted at all. Read-only.
    pub fn authorize(&self, hits: u64) -> (r: Result<u64, UsageReportError>)
        ensures
            self.current_value + hits > u64::MAX ==> r == Err::<u64, UsageReportError>(
                UsageReportError::Overflow,
            ),
            self.current_value + hits <= u64::MAX ==> if self.current_value + hits
                > self.max_value {
                r == Err::<u64, UsageReportError>(
                    UsageReportError::LimitsExceeded(
                        (self.current_value + hits - self.max_value) as u64,
                    ),
                )
            } else {
                r == Ok::<u64, UsageReportError>((self.current_value + hits) as u64)
            },
    {
        let new_hits = match self.current_value.checked_add(hits) {
            Some(v) => v,
            None => {
                return Err(UsageReportError::Overflow);
            },
        };
        if new_hits > self.max_value {
            Err(UsageReportError::LimitsExceeded(new_hits - self.max_value))
        } else {
            Ok(new_hits)
        }
    }

    /// Counts `hits` into the report, regardless of the limit; fails only
    /// when the counter would overflow, and is unchanged then.
    pub fn report(&mut self, hits: u64) -> (r: Result<u64, UsageReportError>)
        ensures
            old(self).current_value + hits > u64::MAX ==> r == Err::<u64, UsageReportError>(
                UsageReportError::Overflow,
            ) && *final(self) == *old(self),
            old(self).current_value + hits <= u64::MAX ==> r == Ok::<u64, UsageReportError>(
                (old(self).current_value + hits) as u64,
            ) && *final(self) == (UsageReport {
                current_value: (old(self).current_value + hits) as u64,
                ..*old(self)
            }),
    {
        let new_value = match self.current_value.checked_add(hits) {
            Some(v) => v,
            None => {
                return Err(UsageReportError::Overflow);
            },
        };
        self.current_value = new_value;
        Ok(new_value)
    }

    /// Resets the counter to the given value, or to zero.
    pub fn reset(&mut self, val: Option<u64>)
        ensures
            *final(self) == (UsageReport {
                current_value: match val {
                    Some(v) => v,
                    None => 0,
                },
                ..*old(self)
            }),
    {
        self.current_value = match val {
            Some(v) => v,
            None => 0,
        };
    }
}

/// The wrapper tag the service's report lists carry around their reports.
#[derive(Debug, Clone, PartialEq, Eq)]
pub enum UsageReports {
    UsageReports(Vec<UsageReport>),
}

impl UsageReports {
    pub fn as_vec(&self) -> (r: &Vec<UsageReport>)
        ensures
            *self matches UsageReports::UsageReports(v) && r == v,
    {
        match self {
            Self::UsageReports(v) => v,
        }
    }

    pub fn as_vec_mut(&mut self) -> (r: &mut Vec<UsageReport>)
        ensures
            (*old(self)) matches UsageReports::UsageReports(v) && r@ == v@,
            (*final(self)) matches UsageReports::UsageReports(v2) && v2@ == final(r)@,
    {
        match self {
            Self::UsageReports(v) => v,
        }
    }

    pub fn into_inner(self) -> (r: Vec<UsageReport>)
        ensures
            self matches UsageReports::UsageReports(v) && r == v,
    {
        match self {
            Self::UsageReports(v) => v,
        }
    }
}

} // verus!
