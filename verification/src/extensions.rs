use vstd::prelude::*;

mod extension;
mod list;

pub use extension::ext_eq;
pub use extension::ext_key;
pub use extension::ext_value;
pub use extension::ext_wire;
pub use extension::Extension;
pub use list::find_ext;
pub use list::list_wire;
pub use list::without_ext;
pub use list::List;

use crate::encoding::{encode, encoded_str};
use crate::util::chars::{chars_of, join_with, push_all, string_of};

verus! {

/// A set of extension parameters kept as key/value pairs in insertion order,
/// with keys unique as a map would keep them.
#[derive(Debug, Clone, PartialEq)]
pub struct Extensions(Vec<(String, String)>);

impl View for Extensions {
    type V = Seq<(String, String)>;

    closed spec fn view(&self) -> Seq<(String, String)> {
        self.0@
    }
}

/// Every key occurs at most once, as a map keeps them.
pub open spec fn extensions_keys_unique(s: Seq<(String, String)>) -> bool {
    forall|i: int, j: int| 0 <= i < j < s.len() ==> (#[trigger] s[i]).0@ != (#[trigger] s[j]).0@
}

/// The first position whose key reads `k`.
pub open spec fn find_key(s: Seq<(String, String)>, k: Seq<char>) -> Option<int>
    decreases s.len(),
{
    if s.len() == 0 {
        None
    } else if s[0].0@ == k {
        Some(0)
    } else {
        match find_key(s.drop_first(), k) {
            None => None,
            Some(i) => Some(i + 1),
        }
    }
}

proof fn lemma_find_key_is(s: Seq<(String, String)>, k: Seq<char>, i: int)
    requires
        0 <= i < s.len(),
        s[i].0@ == k,
        forall|q: int| 0 <= q < i ==> (#[trigger] s[q]).0@ != k,
    ensures
        find_key(s, k) == Some(i),
    decreases s.len(),
{
    if i > 0 {
        assert forall|q: int| 0 <= q < i - 1 implies (#[trigger] s.drop_first()[q]).0@ != k by {
            assert(s.drop_first()[q] == s[q + 1]);
        }
        assert(s.drop_first()[i - 1] == s[i]);
        lemma_find_key_is(s.drop_first(), k, i - 1);
    }
}

proof fn lemma_find_key_none(s: Seq<(String, String)>, k: Seq<char>)
    requires
        forall|q: int| 0 <= q < s.len() ==> (#[trigger] s[q]).0@ != k,
    ensures
        find_key(s, k) is None,
    decreases s.len(),
{
    if s.len() > 0 {
        assert forall|q: int| 0 <= q < s.len() - 1 implies (#[trigger] s.drop_first()[q]).0@
            != k by {
            assert(s.drop_first()[q] == s[q + 1]);
        }
        lemma_find_key_none(s.drop_first(), k);
    }
}

/// The wire form of an extensions map: `key=value` pairs, both sides
/// percent-encoded, joined by ampersands.
pub open spec fn extensions_wire(s: Seq<(String, String)>) -> Seq<char> {
    join_with(
        s.map_values(|kv: (String, String)| encoded_str(kv.0@) + "="@ + encoded_str(kv.1@)),
        seq!['&'],
    )
}

impl Extensions {
    /// An empty set of extensions.
    pub fn new() -> (r: Self)
        ensures
            r@ == Seq::<(String, String)>::empty(),
    {
        Extensions(Vec::new())
    }

    /// Sets `param` to `value`: an existing key keeps its position and gets
    /// the new value, with the old one returned; a new key is appended.
    pub fn insert(&mut self, param: String, value: String) -> (r: Option<String>)
        ensures
            match find_key(old(self)@, param@) {
                Some(i) => (r matches Some(x) && x == old(self)@[i].1) && final(self)@ == old(
                    self,
                )@.update(i, (old(self)@[i].0, value)),
                None => r is None && final(self)@ == old(self)@.push((param, value)),
            },
            extensions_keys_unique(old(self)@) ==> extensions_keys_unique(final(self)@),
    {
        let ghost kview = param@;
        let n = self.0.len();
        let mut i: usize = 0;
        while i < n
            invariant
                n == self.0@.len(),
                self.0@ == old(self)@,
                0 <= i <= n,
                forall|q: int| 0 <= q < i ==> (#[trigger] old(self)@[q]).0@ != param@,
            decreases n - i,
        {
            if crate::util::chars::str_eq(self.0[i].0.as_str(), param.as_str()) {
                proof {
                    lemma_find_key_is(old(self)@, param@, i as int);
                }
                let pair = self.0.remove(i);
                self.0.insert(i, (pair.0, value));
                proof {
                    assert(self.0@ =~= old(self)@.update(
                        i as int,
                        (old(self)@[i as int].0, value),
                    ));
                    if extensions_keys_unique(old(self)@) {
                        let t = self.0@;
                        assert forall|q1: int, q2: int|
                            0 <= q1 < q2 < t.len() implies (#[trigger] t[q1]).0@ != (
                        #[trigger] t[q2]).0@ by {
                            assert(t[q1].0 == old(self)@[q1].0);
                            assert(t[q2].0 == old(self)@[q2].0);
                        }
                    }
                }
                return Some(pair.1);
            }
            i = i + 1;
        }
        proof {
            lemma_find_key_none(old(self)@, param@);
        }
        self.0.push((param, value));
        proof {
            if extensions_keys_unique(old(self)@) {
                let s0 = old(self)@;
                let t = self.0@;
                assert forall|q1: int, q2: int|
                    0 <= q1 < q2 < t.len() implies (#[trigger] t[q1]).0@ != (
                #[trigger] t[q2]).0@ by {
                    if q2 < s0.len() {
                        assert(t[q1] == s0[q1]);
                        assert(t[q2] == s0[q2]);
                    } else {
                        assert(t[q1] == s0[q1]);
                        assert(t[q2].0@ == kview);
                    }
                }
            }
        }
        None
    }

    /// Removes the pair keyed by `param` and returns its value.
    pub fn remove(&mut self, param: &str) -> (r: Option<String>)
        ensures
            match find_key(old(self)@, param@) {
                Some(i) => (r matches Some(x) && x == old(self)@[i].1) && final(self)@ == old(
                    self,
                )@.remove(i),
                None => r is None && final(self)@ == old(self)@,
            },
    {
        let n = self.0.len();
        let mut i: usize = 0;
        while i < n
            invariant
                n == self.0@.len(),
                self.0@ == old(self)@,
                0 <= i <= n,
                forall|q: int| 0 <= q < i ==> (#[trigger] old(self)@[q]).0@ != param@,
            decreases n - i,
        {
            if crate::util::chars::str_eq(self.0[i].0.as_str(), param) {
                proof {
                    lemma_find_key_is(old(self)@, param@, i as int);
                }
                let pair = self.0.remove(i);
                return Some(pair.1);
            }
            i = i + 1;
        }
        proof {
            lemma_find_key_none(old(self)@, param@);
        }
        None
    }

    /// Read access to the pairs, in insertion order.
    pub fn iter(&self) -> (r: &Vec<(String, String)>)
        ensures
            r@ == self@,
    {
        &self.0
    }

    /// Exclusive access to the pairs; keeping keys unique is then the
    /// caller's business.
    pub fn iter_mut(&mut self) -> (r: &mut Vec<(String, String)>)
        ensures
            r@ == old(self)@,
            final(r)@ == final(self)@,
    {
        &mut self.0
    }

    /// Consumes the set and returns the underlying pairs.
    pub fn into_inner(self) -> (r: Vec<(String, String)>)
        ensures
            r@ == self@,
    {
        self.0
    }

    /// The wire form: `key=value` pairs, both sides percent-encoded, joined
    /// by ampersands.
    pub fn to_string(&self) -> (r: String)
        ensures
            r@ == extensions_wire(self@),
    {
        let n = self.0.len();
        let mut out: Vec<char> = Vec::new();
        let ghost mapped = self@.map_values(
            |kv: (String, String)| encoded_str(kv.0@) + "="@ + encoded_str(kv.1@),
        );
        if n == 0 {
            return string_of(&out);
        }
        let first = self.pair_wire(0);
        let fc = chars_of(first.as_str());
        push_all(&fc, &mut out);
        proof {
            assert(out@ =~= join_with(mapped.take(1), seq!['&']));
        }
        let mut k: usize = 1;
        while k < n
            invariant
                1 <= k <= n,
                n == self.0@.len(),
                mapped == self@.map_values(
                    |kv: (String, String)| encoded_str(kv.0@) + "="@ + encoded_str(kv.1@),
                ),
                out@ == join_with(mapped.take(k as int), seq!['&']),
            decreases n - k,
        {
            out.push('&');
            let piece = self.pair_wire(k);
            let pc = chars_of(piece.as_str());
            push_all(&pc, &mut out);
            k = k + 1;
            proof {
                assert(mapped.take(k as int).drop_last() =~= mapped.take(k - 1));
                assert(mapped.take(k as int).last() == mapped[k - 1]);
                assert(out@ =~= join_with(mapped.take(k - 1), seq!['&']) + seq!['&'] + mapped[k
                    - 1]);
            }
        }
        proof {
            assert(mapped.take(n as int) =~= mapped);
        }
        string_of(&out)
    }

    /// The wire form of the pair at one position.
    fn pair_wire(&self, i: usize) -> (r: String)
        requires
            i < self@.len(),
        ensures
            r@ == encoded_str(self@[i as int].0@) + "="@ + encoded_str(self@[i as int].1@),
    {
        let kv = &self.0[i];
        encode(kv.0.as_str()).concat("=").concat(encode(kv.1.as_str()).as_str())
    }
}

} // verus!
