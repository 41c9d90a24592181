use vstd::prelude::*;

use crate::util::chars::{chars_of, string_of, upper_seq, upper_vec};

verus! {

/// A string normalized to ASCII uppercase at construction.
#[derive(Debug, Clone)]
pub struct AllCaps(String);

impl View for AllCaps {
    type V = Seq<char>;

    closed spec fn view(&self) -> Seq<char> {
        self.0@
    }
}

/// The invariant every `AllCaps` value satisfies: it is its own uppercasing.
pub open spec fn all_caps_wf(a: AllCaps) -> bool {
    a@ == upper_seq(a@)
}

impl AllCaps {
    pub fn as_str(&self) -> (r: &str)
        ensures
            r@ == self@,
    {
        self.0.as_str()
    }

    pub fn into_inner(self) -> (r: String)
        ensures
            r@ == self@,
    {
        self.0
    }

    /// Uppercases the argument; the only constructor.
    pub fn from_str(s: &str) -> (r: AllCaps)
        ensures
            r@ == upper_seq(s@),
            all_caps_wf(r),
    {
        let v = chars_of(s);
        let up = upper_vec(&v);
        proof {
            crate::util::chars::lemma_upper_seq_idempotent(s@);
        }
        AllCaps(string_of(&up))
    }

    pub fn from_string(s: String) -> (r: AllCaps)
        ensures
            r@ == upper_seq(s@),
            all_caps_wf(r),
    {
        Self::from_str(s.as_str())
    }
}

impl From<&str> for AllCaps {
    fn from(s: &str) -> (r: AllCaps)
        ensures
            r@ == upper_seq(s@),
            all_caps_wf(r),
    {
        AllCaps::from_str(s)
    }
}

impl vstd::std_specs::convert::FromSpecImpl<&str> for AllCaps {
    open spec fn obeys_from_spec() -> bool {
        false
    }

    open spec fn from_spec(s: &str) -> AllCaps {
        arbitrary()
    }
}

impl From<String> for AllCaps {
    fn from(s: String) -> (r: AllCaps)
        ensures
            r@ == upper_seq(s@),
            all_caps_wf(r),
    {
        AllCaps::from_string(s)
    }
}

impl vstd::std_specs::convert::FromSpecImpl<String> for AllCaps {
    open spec fn obeys_from_spec() -> bool {
        false
    }

    open spec fn from_spec(s: String) -> AllCaps {
        arbitrary()
    }
}

impl From<AllCaps> for String {
    fn from(a: AllCaps) -> (r: String)
        ensures
            r@ == a@,
    {
        a.into_inner()
    }
}

impl vstd::std_specs::convert::FromSpecImpl<AllCaps> for String {
    open spec fn obeys_from_spec() -> bool {
        false
    }

    open spec fn from_spec(a: AllCaps) -> String {
        arbitrary()
    }
}

impl PartialEq for AllCaps {
    fn eq(&self, other: &AllCaps) -> (r: bool)
        ensures
            r == (self@ == other@),
    {
        self.0 == other.0
    }
}

impl Eq for AllCaps {

}

impl vstd::std_specs::cmp::PartialEqSpecImpl for AllCaps {
    open spec fn obeys_eq_spec() -> bool {
        true
    }

    open spec fn eq_spec(&self, other: &AllCaps) -> bool {
        self@ == other@
    }
}

} // verus!
