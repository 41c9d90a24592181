use vstd::prelude::*;

use crate::util::chars::{i64_to_string, int_dec_str};

verus! {

/// A timestamp kept as its decimal rendering in seconds relative to the UNIX
/// epoch. Meant for representation in API calls; operate on the integer form
/// if arithmetic is needed.
#[derive(Debug, Clone, PartialEq, Eq)]
pub struct Timestamp {
    ts: String,
}

impl View for Timestamp {
    type V = Seq<char>;

    closed spec fn view(&self) -> Seq<char> {
        self.ts@
    }
}

/// The error of converting a system time whose distance from the epoch does
/// not fit a 64-bit signed count of seconds.
#[derive(Debug, Clone, Copy, PartialEq, Eq, Structural)]
pub enum TimestampError {
    OutOfRange,
}

#[verifier::external_type_specification]
#[verifier::external_body]
pub struct ExSystemTime(std::time::SystemTime);

/// Relies on SystemTime::duration_since(UNIX_EPOCH): the whole seconds at or
/// after the epoch come back as Ok, the whole seconds before it as Err.
#[verifier::external_body]
fn secs_from_epoch(st: &std::time::SystemTime) -> (r: Result<u64, u64>) {
    match st.duration_since(std::time::SystemTime::UNIX_EPOCH) {
        Ok(d) => Ok(d.as_secs()),
        Err(e) => Err(e.duration().as_secs()),
    }
}

/// Relies on SystemTime::now: the clock's reading, different on every call.
#[verifier::external_body]
fn system_now() -> (r: std::time::SystemTime) {
    std::time::SystemTime::now()
}

impl Timestamp {
    /// A convenience `None` of the right type for calls that take an
    /// optional timestamp reference.
    pub fn none() -> (r: Option<&'static Timestamp>)
        ensures
            r is None,
    {
        None
    }

    /// A timestamp from a count of seconds relative to the UNIX epoch.
    pub fn new(ts: i64) -> (r: Self)
        ensures
            r@ == int_dec_str(ts as int),
    {
        Self { ts: i64_to_string(ts) }
    }

    /// The current time. The clock's reading decides the value; a reading
    /// outside the representable window, which no real clock produces, falls
    /// back to the largest representable count.
    pub fn now() -> Self {
        let st = system_now();
        match Self::try_from(st) {
            Ok(ts) => ts,
            Err(_) => Self::new(i64::MAX),
        }
    }

    /// Converts a system time, failing if its distance from the epoch does
    /// not fit a 64-bit signed count of seconds. The clock value decides the
    /// outcome; a success always renders a representable count.
    pub fn try_from(st: std::time::SystemTime) -> (r: Result<Self, TimestampError>)
        ensures
            r matches Ok(t) ==> exists|n: i64| t@ == int_dec_str(n as int),
    {
        match secs_from_epoch(&st) {
            Ok(secs) => {
                if secs <= i64::MAX as u64 {
                    let t = Self::new(secs as i64);
                    proof {
                        assert(t@ == int_dec_str((secs as i64) as int));
                    }
                    Ok(t)
                } else {
                    Err(TimestampError::OutOfRange)
                }
            },
            Err(before) => {
                if before <= i64::MAX as u64 {
                    let t = Self::new(-(before as i64));
                    proof {
                        assert(t@ == int_dec_str((-(before as i64)) as int));
                    }
                    Ok(t)
                } else {
                    Err(TimestampError::OutOfRange)
                }
            },
        }
    }

    /// Consumes the timestamp and returns its rendering.
    pub fn into_inner(self) -> (r: String)
        ensures
            r@ == self@,
    {
        self.ts
    }

    /// The timestamp's rendering.
    pub fn as_str(&self) -> (r: &str)
        ensures
            r@ == self@,
    {
        self.ts.as_str()
    }
}

impl From<i64> for Timestamp {
    fn from(ts: i64) -> (r: Self)
        ensures
            r@ == int_dec_str(ts as int),
    {
        Self::new(ts)
    }
}

impl vstd::std_specs::convert::FromSpecImpl<i64> for Timestamp {
    open spec fn obeys_from_spec() -> bool {
        false
    }

    open spec fn from_spec(ts: i64) -> Timestamp {
        arbitrary()
    }
}

} // verus!
