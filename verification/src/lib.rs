use vstd::prelude::*;

pub mod api_call;
pub mod apicall;
pub mod application;
pub mod credentials;
pub mod encoding;
pub mod errors;
pub mod extensions;
pub mod http;
pub mod request;
pub mod response;
pub mod service;
pub mod timestamp;
pub mod transaction;
pub mod usage;
pub mod user;
pub mod util;
pub mod version;

verus! {

pub use errors::Error;

/// The key/value pairs that a component contributes to an API call, as pairs
/// of character sequences.
pub open spec fn params_view(ps: Seq<(String, String)>) -> Seq<(Seq<char>, Seq<char>)> {
    ps.map_values(|kv: (String, String)| (kv.0@, kv.1@))
}

/// The same pairs with every key preceded by a prefix.
pub open spec fn keys_prefixed(
    prefix: Seq<char>,
    ps: Seq<(Seq<char>, Seq<char>)>,
) -> Seq<(Seq<char>, Seq<char>)> {
    ps.map_values(|kv: (Seq<char>, Seq<char>)| (prefix + kv.0, kv.1))
}

/// Appends one key/value pair to a parameter list.
pub(crate) fn push_param(out: &mut Vec<(String, String)>, k: String, v: String)
    ensures
        params_view(final(out)@) == params_view(old(out)@).push((k@, v@)),
{
    let ghost k0 = k@;
    let ghost v0 = v@;
    out.push((k, v));
    proof {
        let m1 = params_view(out@);
        let m2 = params_view(old(out)@).push((k0, v0));
        assert forall|q: int| 0 <= q < m1.len() implies m1[q] == m2[q] by {
            if q < m1.len() - 1 {
                assert(out@[q] == old(out)@[q]);
                assert(params_view(old(out)@)[q] == (old(out)@[q].0@, old(out)@[q].1@));
            }
        }
        assert(m1 =~= m2);
    }
}

} // verus!

