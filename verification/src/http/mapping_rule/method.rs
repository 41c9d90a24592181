use vstd::prelude::*;

use crate::util::string::{all_caps_wf, AllCaps};
use crate::util::chars::upper_seq;

verus! {

/// An HTTP method for rule matching: the nine canonical verbs, a wildcard
/// `Any` that compares equal to every method, and `Other` for forward
/// compatibility with verbs this crate does not know, normalized to uppercase.
#[derive(Debug, Clone)]
pub enum Method {
    GET,
    HEAD,
    POST,
    PUT,
    DELETE,
    CONNECT,
    OPTIONS,
    TRACE,
    PATCH,
    Any,
    Other(AllCaps),
}

/// The canonical uppercase name of a method.
pub open spec fn method_name(m: Method) -> Seq<char> {
    match m {
        Method::GET => "GET"@,
        Method::HEAD => "HEAD"@,
        Method::POST => "POST"@,
        Method::PUT => "PUT"@,
        Method::DELETE => "DELETE"@,
        Method::CONNECT => "CONNECT"@,
        Method::OPTIONS => "OPTIONS"@,
        Method::TRACE => "TRACE"@,
        Method::PATCH => "PATCH"@,
        Method::Any => "ANY"@,
        Method::Other(s) => s@,
    }
}

/// The wildcard-aware equality relation on methods.
///
/// `Any` compares equal to everything, on either side; two `Other` values
/// compare by their normalized names; named variants compare equal only to
/// themselves. The relation is reflexive and symmetric but deliberately not
/// transitive: `Any == GET` and `Any == POST`, yet `GET != POST`.
pub open spec fn method_eq(a: Method, b: Method) -> bool {
    match (a, b) {
        (Method::Any, _) => true,
        (_, Method::Any) => true,
        (Method::Other(x), Method::Other(y)) => x@ == y@,
        (Method::GET, Method::GET) => true,
        (Method::HEAD, Method::HEAD) => true,
        (Method::POST, Method::POST) => true,
        (Method::PUT, Method::PUT) => true,
        (Method::DELETE, Method::DELETE) => true,
        (Method::CONNECT, Method::CONNECT) => true,
        (Method::OPTIONS, Method::OPTIONS) => true,
        (Method::TRACE, Method::TRACE) => true,
        (Method::PATCH, Method::PATCH) => true,
        _ => false,
    }
}

/// How an already-uppercased token is read as a method.
pub open spec fn caps_parses_to(u: Seq<char>, m: Method) -> bool {
    if u == "ANY"@ {
        m is Any
    } else if u == "GET"@ {
        m is GET
    } else if u == "HEAD"@ {
        m is HEAD
    } else if u == "POST"@ {
        m is POST
    } else if u == "PUT"@ {
        m is PUT
    } else if u == "DELETE"@ {
        m is DELETE
    } else if u == "CONNECT"@ {
        m is CONNECT
    } else if u == "OPTIONS"@ {
        m is OPTIONS
    } else if u == "TRACE"@ {
        m is TRACE
    } else if u == "PATCH"@ {
        m is PATCH
    } else {
        m matches Method::Other(o) && o@ == u
    }
}

/// How an arbitrary token is read as a method: case-insensitively.
pub open spec fn parses_to(s: Seq<char>, m: Method) -> bool {
    caps_parses_to(upper_seq(s), m)
}

impl Method {
    pub fn as_str(&self) -> (r: &str)
        ensures
            r@ == method_name(*self),
    {
        match self {
            Method::Any => "ANY",
            Method::GET => "GET",
            Method::HEAD => "HEAD",
            Method::POST => "POST",
            Method::PUT => "PUT",
            Method::DELETE => "DELETE",
            Method::CONNECT => "CONNECT",
            Method::OPTIONS => "OPTIONS",
            Method::TRACE => "TRACE",
            Method::PATCH => "PATCH",
            Method::Other(s) => s.as_str(),
        }
    }
}

impl From<AllCaps> for Method {
    fn from(s: AllCaps) -> (r: Self)
        ensures
            caps_parses_to(s@, r),
    {
        let t = s.as_str();
        if crate::util::chars::str_eq(t, "ANY") {
            Self::Any
        } else if crate::util::chars::str_eq(t, "GET") {
            Self::GET
        } else if crate::util::chars::str_eq(t, "HEAD") {
            Self::HEAD
        } else if crate::util::chars::str_eq(t, "POST") {
            Self::POST
        } else if crate::util::chars::str_eq(t, "PUT") {
            Self::PUT
        } else if crate::util::chars::str_eq(t, "DELETE") {
            Self::DELETE
        } else if crate::util::chars::str_eq(t, "CONNECT") {
            Self::CONNECT
        } else if crate::util::chars::str_eq(t, "OPTIONS") {
            Self::OPTIONS
        } else if crate::util::chars::str_eq(t, "TRACE") {
            Self::TRACE
        } else if crate::util::chars::str_eq(t, "PATCH") {
            Self::PATCH
        } else {
            Self::Other(s)
        }
    }
}

impl vstd::std_specs::convert::FromSpecImpl<AllCaps> for Method {
    open spec fn obeys_from_spec() -> bool {
        false
    }

    open spec fn from_spec(s: AllCaps) -> Method {
        arbitrary()
    }
}

impl From<&str> for Method {
    fn from(s: &str) -> (r: Self)
        ensures
            parses_to(s@, r),
    {
        Self::from(AllCaps::from_str(s))
    }
}

impl vstd::std_specs::convert::FromSpecImpl<&str> for Method {
    open spec fn obeys_from_spec() -> bool {
        false
    }

    open spec fn from_spec(s: &str) -> Method {
        arbitrary()
    }
}

impl From<String> for Method {
    fn from(s: String) -> (r: Self)
        ensures
            parses_to(s@, r),
    {
        Self::from(AllCaps::from_string(s))
    }
}

impl vstd::std_specs::convert::FromSpecImpl<String> for Method {
    open spec fn obeys_from_spec() -> bool {
        false
    }

    open spec fn from_spec(s: String) -> Method {
        arbitrary()
    }
}

impl From<Method> for String {
    fn from(m: Method) -> (r: Self)
        ensures
            r@ == method_name(m),
    {
        match m {
            Method::Other(s) => s.into_inner(),
            _ => m.as_str().to_owned(),
        }
    }
}

impl vstd::std_specs::convert::FromSpecImpl<Method> for String {
    open spec fn obeys_from_spec() -> bool {
        false
    }

    open spec fn from_spec(m: Method) -> String {
        arbitrary()
    }
}

impl PartialEq for Method {
    /// The wildcard-aware comparison; see `method_eq` for its laws.
    fn eq(&self, other: &Self) -> (r: bool)
        ensures
            r == method_eq(*self, *other),
    {
        match (self, other) {
            (Self::Any, _) | (_, Self::Any) => true,
            (Self::Other(a), Self::Other(b)) => a == b,
            (Self::GET, Self::GET)
            | (Self::HEAD, Self::HEAD)
            | (Self::POST, Self::POST)
            | (Self::PUT, Self::PUT)
            | (Self::DELETE, Self::DELETE)
            | (Self::CONNECT, Self::CONNECT)
            | (Self::OPTIONS, Self::OPTIONS)
            | (Self::TRACE, Self::TRACE)
            | (Self::PATCH, Self::PATCH) => true,
            _ => false,
        }
    }
}

impl Eq for Method {

}

impl vstd::std_specs::cmp::PartialEqSpecImpl for Method {
    open spec fn obeys_eq_spec() -> bool {
        true
    }

    open spec fn eq_spec(&self, other: &Method) -> bool {
        method_eq(*self, *other)
    }
}

/// The wildcard compares equal to every method, on either side.
pub proof fn lemma_method_eq_wildcard(m: Method)
    ensures
        method_eq(Method::Any, m),
        method_eq(m, Method::Any),
{
}

/// The wildcard-aware relation is symmetric.
pub proof fn lemma_method_eq_symmetric(a: Method, b: Method)
    ensures
        method_eq(a, b) == method_eq(b, a),
{
}

/// The wildcard-aware relation is reflexive.
pub proof fn lemma_method_eq_reflexive(m: Method)
    ensures
        method_eq(m, m),
{
}

/// Two non-wildcard methods with different canonical names never compare equal.
pub proof fn lemma_method_eq_distinct(a: Method, b: Method)
    requires
        !(a is Any),
        !(b is Any),
        method_name(a) != method_name(b),
    ensures
        !method_eq(a, b),
{
}

/// The uppercase names of the nine canonical verbs.
pub open spec fn is_canonical_verb_name(u: Seq<char>) -> bool {
    u == "GET"@ || u == "HEAD"@ || u == "POST"@ || u == "PUT"@ || u == "DELETE"@ || u
        == "CONNECT"@ || u == "OPTIONS"@ || u == "TRACE"@ || u == "PATCH"@
}

/// Whether the method parsed from the token `tok` compares equal, under the
/// wildcard-aware relation, to the method `m`.
pub open spec fn token_matches_method(tok: Seq<char>, m: Method) -> bool {
    let u = upper_seq(tok);
    if m is Any || u == "ANY"@ {
        true
    } else if is_canonical_verb_name(u) {
        !(m matches Method::Other(_)) && method_name(m) == u
    } else {
        m matches Method::Other(o) && o@ == u
    }
}

/// The ten canonical method names are pairwise distinct.
proof fn lemma_method_names_distinct()
    ensures
        "ANY"@ != "GET"@ && "ANY"@ != "HEAD"@ && "ANY"@ != "POST"@ && "ANY"@ != "PUT"@ && "ANY"@
            != "DELETE"@ && "ANY"@ != "CONNECT"@ && "ANY"@ != "OPTIONS"@ && "ANY"@ != "TRACE"@
            && "ANY"@ != "PATCH"@,
        "GET"@ != "HEAD"@ && "GET"@ != "POST"@ && "GET"@ != "PUT"@ && "GET"@ != "DELETE"@ && "GET"@
            != "CONNECT"@ && "GET"@ != "OPTIONS"@ && "GET"@ != "TRACE"@ && "GET"@ != "PATCH"@,
        "HEAD"@ != "POST"@ && "HEAD"@ != "PUT"@ && "HEAD"@ != "DELETE"@ && "HEAD"@ != "CONNECT"@
            && "HEAD"@ != "OPTIONS"@ && "HEAD"@ != "TRACE"@ && "HEAD"@ != "PATCH"@,
        "POST"@ != "PUT"@ && "POST"@ != "DELETE"@ && "POST"@ != "CONNECT"@ && "POST"@
            != "OPTIONS"@ && "POST"@ != "TRACE"@ && "POST"@ != "PATCH"@,
        "PUT"@ != "DELETE"@ && "PUT"@ != "CONNECT"@ && "PUT"@ != "OPTIONS"@ && "PUT"@ != "TRACE"@
            && "PUT"@ != "PATCH"@,
        "DELETE"@ != "CONNECT"@ && "DELETE"@ != "OPTIONS"@ && "DELETE"@ != "TRACE"@ && "DELETE"@
            != "PATCH"@,
        "CONNECT"@ != "OPTIONS"@ && "CONNECT"@ != "TRACE"@ && "CONNECT"@ != "PATCH"@,
        "OPTIONS"@ != "TRACE"@ && "OPTIONS"@ != "PATCH"@,
        "TRACE"@ != "PATCH"@,
{
    reveal_strlit("ANY");
    reveal_strlit("GET");
    reveal_strlit("HEAD");
    reveal_strlit("POST");
    reveal_strlit("PUT");
    reveal_strlit("DELETE");
    reveal_strlit("CONNECT");
    reveal_strlit("OPTIONS");
    reveal_strlit("TRACE");
    reveal_strlit("PATCH");
    assert("ANY"@[0] == 'A' && "GET"@[0] == 'G' && "PUT"@[0] == 'P' && "HEAD"@[0] == 'H'
        && "POST"@[0] == 'P' && "TRACE"@[0] == 'T' && "PATCH"@[0] == 'P' && "CONNECT"@[0] == 'C'
        && "OPTIONS"@[0] == 'O');
    assert("ANY"@.len() == 3 && "GET"@.len() == 3 && "HEAD"@.len() == 4 && "POST"@.len() == 4
        && "PUT"@.len() == 3 && "DELETE"@.len() == 6 && "CONNECT"@.len() == 7 && "OPTIONS"@.len()
        == 7 && "TRACE"@.len() == 5 && "PATCH"@.len() == 5);
}

/// How a parsed token compares to a method is a function of the token's text
/// and the method alone.
pub proof fn lemma_token_matches_method(tok: Seq<char>, p: Method, m: Method)
    requires
        parses_to(tok, p),
    ensures
        method_eq(p, m) == token_matches_method(tok, m),
{
    lemma_method_names_distinct();
}

/// Parsing any casing of a token and asking for the canonical name gives the
/// token's uppercasing; a token whose uppercasing is `ANY` parses to the
/// wildcard.
pub proof fn lemma_method_parse_roundtrip(s: Seq<char>, m: Method)
    requires
        parses_to(s, m),
    ensures
        method_name(m) == upper_seq(s),
        upper_seq(s) == "ANY"@ ==> m is Any,
{
}

} // verus!
