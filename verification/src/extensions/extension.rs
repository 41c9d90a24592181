use vstd::prelude::*;

use crate::encoding::{encode, encoded_str};

verus! {

/// One extension of an API call. The known extensions carry their canonical
/// key; `Other` carries an arbitrary key and value.
#[derive(Debug)]
#[non_exhaustive]
pub enum Extension {
    FlatUsage(String),
    Hierarchy,
    NoBody,
    ListAppKeys(String),
    Other(String, String),
}

/// The key under which an extension is sent.
pub open spec fn ext_key(e: Extension) -> Seq<char> {
    match e {
        Extension::Other(k, _) => k@,
        Extension::FlatUsage(_) => "flat_usage"@,
        Extension::Hierarchy => "hierarchy"@,
        Extension::ListAppKeys(_) => "list_app_keys"@,
        Extension::NoBody => "no_body"@,
    }
}

/// The value an extension carries; the flag-like extensions always carry `1`.
pub open spec fn ext_value(e: Extension) -> Seq<char> {
    match e {
        Extension::Other(_, v) => v@,
        Extension::FlatUsage(v) => v@,
        Extension::ListAppKeys(v) => v@,
        Extension::Hierarchy => "1"@,
        Extension::NoBody => "1"@,
    }
}

/// The wire form of one extension: `key=value`. The known keys are already in
/// their encoded form, so only `Other` is percent-encoded.
pub open spec fn ext_wire(e: Extension) -> Seq<char> {
    match e {
        Extension::Other(k, v) => encoded_str(k@) + "="@ + encoded_str(v@),
        Extension::FlatUsage(v) => "flat_usage="@ + v@,
        Extension::Hierarchy => "hierarchy=1"@,
        Extension::ListAppKeys(v) => "list_app_keys="@ + v@,
        Extension::NoBody => "no_body=1"@,
    }
}

/// Structural equality of extensions, by variant and carried text.
pub open spec fn ext_eq(a: Extension, b: Extension) -> bool {
    match (a, b) {
        (Extension::FlatUsage(x), Extension::FlatUsage(y)) => x@ == y@,
        (Extension::Hierarchy, Extension::Hierarchy) => true,
        (Extension::NoBody, Extension::NoBody) => true,
        (Extension::ListAppKeys(x), Extension::ListAppKeys(y)) => x@ == y@,
        (Extension::Other(k1, v1), Extension::Other(k2, v2)) => k1@ == k2@ && v1@ == v2@,
        _ => false,
    }
}

impl Clone for Extension {
    /// A clone carries the same variant and text as the original.
    fn clone(&self) -> (r: Self)
        ensures
            ext_eq(r, *self),
    {
        match self {
            Extension::FlatUsage(v) => Extension::FlatUsage(v.clone()),
            Extension::Hierarchy => Extension::Hierarchy,
            Extension::NoBody => Extension::NoBody,
            Extension::ListAppKeys(v) => Extension::ListAppKeys(v.clone()),
            Extension::Other(k, v) => Extension::Other(k.clone(), v.clone()),
        }
    }
}

impl PartialEq for Extension {
    fn eq(&self, other: &Self) -> (r: bool)
        ensures
            r == ext_eq(*self, *other),
    {
        match (self, other) {
            (Extension::FlatUsage(x), Extension::FlatUsage(y)) => crate::util::chars::str_eq(
                x.as_str(),
                y.as_str(),
            ),
            (Extension::Hierarchy, Extension::Hierarchy) => true,
            (Extension::NoBody, Extension::NoBody) => true,
            (Extension::ListAppKeys(x), Extension::ListAppKeys(y)) => crate::util::chars::str_eq(
                x.as_str(),
                y.as_str(),
            ),
            (Extension::Other(k1, v1), Extension::Other(k2, v2)) => crate::util::chars::str_eq(
                k1.as_str(),
                k2.as_str(),
            ) && crate::util::chars::str_eq(v1.as_str(), v2.as_str()),
            _ => false,
        }
    }
}

impl Eq for Extension {

}

impl vstd::std_specs::cmp::PartialEqSpecImpl for Extension {
    open spec fn obeys_eq_spec() -> bool {
        true
    }

    open spec fn eq_spec(&self, other: &Extension) -> bool {
        ext_eq(*self, *other)
    }
}

impl Extension {
    /// The key under which this extension is sent.
    pub fn key(&self) -> (r: &str)
        ensures
            r@ == ext_key(*self),
    {
        match self {
            Extension::Other(k, _) => k.as_str(),
            Extension::FlatUsage(_) => "flat_usage",
            Extension::Hierarchy => "hierarchy",
            Extension::ListAppKeys(_) => "list_app_keys",
            Extension::NoBody => "no_body",
        }
    }

    /// The value this extension carries.
    pub fn value(&self) -> (r: &str)
        ensures
            r@ == ext_value(*self),
    {
        match self {
            Extension::Other(_, v) => v.as_str(),
            Extension::FlatUsage(v) => v.as_str(),
            Extension::ListAppKeys(v) => v.as_str(),
            Extension::Hierarchy => "1",
            Extension::NoBody => "1",
        }
    }

    /// The wire form `key=value`; known extensions skip the encoder because
    /// their final, encoded form is issued directly.
    pub fn to_cow(&self) -> (r: String)
        ensures
            r@ == ext_wire(*self),
    {
        match self {
            Extension::Other(k, v) => encode(k.as_str()).concat("=").concat(
                encode(v.as_str()).as_str(),
            ),
            Extension::FlatUsage(v) => "flat_usage=".to_owned().concat(v.as_str()),
            Extension::Hierarchy => "hierarchy=1".to_owned(),
            Extension::ListAppKeys(v) => "list_app_keys=".to_owned().concat(v.as_str()),
            Extension::NoBody => "no_body=1".to_owned(),
        }
    }

    /// The wire form built the slow way, key and value both encoded.
    pub fn to_encoded_string(&self) -> (r: String)
        ensures
            r@ == encoded_str(ext_key(*self)) + "="@ + encoded_str(ext_value(*self)),
    {
        encode(self.key()).concat("=").concat(encode(self.value()).as_str())
    }
}

} // verus!
