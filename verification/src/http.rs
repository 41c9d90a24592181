use vstd::prelude::*;

pub mod endpoints;
pub mod mapping_rule;
pub mod parameters;
pub mod request;
mod request_parameters;

pub use parameters::Parameters;
pub use request::Request;
pub use request_parameters::RequestParameters;

use crate::util::chars::{lex_lt, str_eq, str_lt};

verus! {

/// The HTTP methods the Apisonator endpoints use.
#[derive(Debug, Copy, Clone, PartialEq, Eq, Structural)]
#[non_exhaustive]
pub enum Method {
    GET,
    POST,
    PUT,
    PATCH,
    HEAD,
    DELETE,
}

/// The canonical name of an HTTP method.
pub open spec fn http_method_name(m: Method) -> Seq<char> {
    match m {
        Method::GET => "GET"@,
        Method::POST => "POST"@,
        Method::PUT => "PUT"@,
        Method::PATCH => "PATCH"@,
        Method::HEAD => "HEAD"@,
        Method::DELETE => "DELETE"@,
    }
}

impl Method {
    pub fn as_str(&self) -> (r: &str)
        ensures
            r@ == http_method_name(*self),
    {
        match self {
            Method::GET => "GET",
            Method::POST => "POST",
            Method::PUT => "PUT",
            Method::PATCH => "PATCH",
            Method::HEAD => "HEAD",
            Method::DELETE => "DELETE",
        }
    }
}

/// A map of header names to values, kept sorted by name as an ordered map
/// iterates, with names unique.
#[derive(Debug, Clone, PartialEq, Eq)]
pub struct HeaderMap(Vec<(String, String)>);

impl View for HeaderMap {
    type V = Seq<(String, String)>;

    closed spec fn view(&self) -> Seq<(String, String)> {
        self.0@
    }
}

/// Names strictly ascending: sorted and free of duplicates.
pub open spec fn header_map_sorted(s: Seq<(String, String)>) -> bool {
    forall|i: int| 0 <= i < s.len() - 1 ==> lex_lt((#[trigger] s[i]).0@, s[i + 1].0@)
}

/// The position a name belongs at: the first entry whose name does not order
/// strictly before it, or the end.
pub open spec fn header_pos(s: Seq<(String, String)>, k: Seq<char>) -> int
    decreases s.len(),
{
    if s.len() == 0 {
        0
    } else if !lex_lt(s[0].0@, k) {
        0
    } else {
        1 + header_pos(s.drop_first(), k)
    }
}

proof fn lemma_header_pos_is(s: Seq<(String, String)>, k: Seq<char>, i: int)
    requires
        0 <= i <= s.len(),
        forall|q: int| 0 <= q < i ==> lex_lt((#[trigger] s[q]).0@, k),
        i < s.len() ==> !lex_lt(s[i].0@, k),
    ensures
        header_pos(s, k) == i,
    decreases s.len(),
{
    if i > 0 {
        assert forall|q: int| 0 <= q < i - 1 implies lex_lt((#[trigger] s.drop_first()[q]).0@, k) by {
            assert(s.drop_first()[q] == s[q + 1]);
        }
        if i - 1 < s.drop_first().len() {
            assert(s.drop_first()[i - 1] == s[i]);
        }
        lemma_header_pos_is(s.drop_first(), k, i - 1);
    }
}

impl Default for HeaderMap {
    fn default() -> (r: Self)
        ensures
            r@ == Seq::<(String, String)>::empty(),
    {
        Self(Vec::new())
    }
}

impl HeaderMap {
    /// An empty header map.
    pub fn new() -> (r: Self)
        ensures
            r@ == Seq::<(String, String)>::empty(),
    {
        Self(Vec::new())
    }

    /// An empty header map; the inner map takes no capacity hint.
    pub fn with_capacity(_hint: usize) -> (r: Self)
        ensures
            r@ == Seq::<(String, String)>::empty(),
    {
        Self::new()
    }

    /// Sets a header: an existing name keeps its position and gets the new
    /// value, with the old one returned; a new name lands at its sorted
    /// position.
    pub fn insert(&mut self, key: String, value: String) -> (r: Option<String>)
        ensures
            ({
                let p = header_pos(old(self)@, key@);
                if p < old(self)@.len() && old(self)@[p].0@ == key@ {
                    (r matches Some(x) && x == old(self)@[p].1) && final(self)@ == old(
                        self,
                    )@.update(p, (old(self)@[p].0, value))
                } else {
                    r is None && final(self)@ == old(self)@.insert(p, (key, value))
                }
            }),
            header_map_sorted(old(self)@) ==> header_map_sorted(final(self)@),
    {
        let ghost kview = key@;
        let n = self.0.len();
        let mut i: usize = 0;
        while i < n && str_lt(self.0[i].0.as_str(), key.as_str())
            invariant
                n == self.0@.len(),
                self.0@ == old(self)@,
                0 <= i <= n,
                forall|q: int| 0 <= q < i ==> lex_lt((#[trigger] old(self)@[q]).0@, key@),
            decreases n - i,
        {
            i = i + 1;
        }
        proof {
            lemma_header_pos_is(old(self)@, key@, i as int);
        }
        if i < n && str_eq(self.0[i].0.as_str(), key.as_str()) {
            let pair = self.0.remove(i);
            self.0.insert(i, (pair.0, value));
            proof {
                assert(self.0@ =~= old(self)@.update(i as int, (old(self)@[i as int].0, value)));
                if header_map_sorted(old(self)@) {
                    let t = self.0@;
                    assert forall|q: int| 0 <= q < t.len() - 1 implies lex_lt(
                        (#[trigger] t[q]).0@,
                        t[q + 1].0@,
                    ) by {
                        assert(t[q].0 == old(self)@[q].0);
                        assert(t[q + 1].0 == old(self)@[q + 1].0);
                    }
                }
            }
            Some(pair.1)
        } else {
            self.0.insert(i, (key, value));
            proof {
                if header_map_sorted(old(self)@) {
                    let s0 = old(self)@;
                    let p = i as int;
                    let t = self.0@;
                    assert forall|q: int| 0 <= q < t.len() - 1 implies lex_lt(
                        (#[trigger] t[q]).0@,
                        t[q + 1].0@,
                    ) by {
                        if q + 1 < p {
                            assert(t[q] == s0[q]);
                            assert(t[q + 1] == s0[q + 1]);
                        } else if q + 1 == p {
                            assert(t[q] == s0[q]);
                            assert(t[p].0@ == kview);
                        } else if q == p {
                            assert(t[q].0@ == kview);
                            assert(t[q + 1] == s0[q]);
                            assert(s0[p].0@ != kview);
                            crate::util::chars::lemma_lex_lt_trichotomy(kview, s0[p].0@);
                        } else {
                            assert(t[q] == s0[q - 1]);
                            assert(t[q + 1] == s0[q]);
                        }
                    }
                }
            }
            None
        }
    }

    /// How many headers the map holds.
    pub fn len(&self) -> (r: usize)
        ensures
            r == self@.len(),
    {
        self.0.len()
    }

    pub fn is_empty(&self) -> (r: bool)
        ensures
            r == (self@.len() == 0),
    {
        self.0.len() == 0
    }

    /// Read access to the headers, in name order.
    pub fn iter(&self) -> (r: &Vec<(String, String)>)
        ensures
            r@ == self@,
    {
        &self.0
    }

    /// Consumes the map and returns its entries, in name order.
    pub fn into_inner(self) -> (r: Vec<(String, String)>)
        ensures
            r@ == self@,
    {
        self.0
    }
}

impl From<Vec<(String, String)>> for HeaderMap {
    /// Wraps entries already in map form: sorted by name, names unique.
    fn from(entries: Vec<(String, String)>) -> (r: HeaderMap)
        ensures
            r@ == entries@,
    {
        HeaderMap(entries)
    }
}

impl vstd::std_specs::convert::FromSpecImpl<Vec<(String, String)>> for HeaderMap {
    open spec fn obeys_from_spec() -> bool {
        false
    }

    open spec fn from_spec(entries: Vec<(String, String)>) -> HeaderMap {
        arbitrary()
    }
}

} // verus!
