use vstd::prelude::*;

use super::extension::{ext_eq, ext_wire, Extension};

verus! {

/// An ordered list of extensions, kept in insertion order.
#[derive(Debug, Clone, PartialEq, Default)]
pub struct List(Vec<Extension>);

impl View for List {
    type V = Seq<Extension>;

    closed spec fn view(&self) -> Seq<Extension> {
        self.0@
    }
}

/// The first position holding an extension equal to `e`.
pub open spec fn find_ext(s: Seq<Extension>, e: Extension) -> Option<int>
    decreases s.len(),
{
    if s.len() == 0 {
        None
    } else if ext_eq(s[0], e) {
        Some(0)
    } else {
        match find_ext(s.drop_first(), e) {
            None => None,
            Some(i) => Some(i + 1),
        }
    }
}

/// The list with every extension equal to `e` removed.
pub open spec fn without_ext(s: Seq<Extension>, e: Extension) -> Seq<Extension>
    decreases s.len(),
{
    if s.len() == 0 {
        Seq::empty()
    } else {
        let r = without_ext(s.drop_last(), e);
        if ext_eq(s.last(), e) {
            r
        } else {
            r.push(s.last())
        }
    }
}

/// The wire form of a list: the wire forms of its extensions joined by
/// ampersands.
pub open spec fn list_wire(s: Seq<Extension>) -> Seq<char> {
    crate::util::chars::join_with(s.map_values(|e: Extension| ext_wire(e)), seq!['&'])
}

/// Relies on Vec::capacity for the allocation hint; nothing is promised of
/// the value.
#[verifier::external_body]
fn vec_capacity(v: &Vec<Extension>) -> usize {
    v.capacity()
}

/// Relies on Vec::shrink_to_fit keeping the elements.
#[verifier::external_body]
fn vec_shrink_to_fit(v: &mut Vec<Extension>)
    ensures
        final(v)@ == old(v)@,
{
    v.shrink_to_fit()
}

impl From<Vec<Extension>> for List {
    fn from(v: Vec<Extension>) -> (r: Self)
        ensures
            r@ == v@,
    {
        Self(v)
    }
}

impl vstd::std_specs::convert::FromSpecImpl<Vec<Extension>> for List {
    open spec fn obeys_from_spec() -> bool {
        false
    }

    open spec fn from_spec(v: Vec<Extension>) -> List {
        arbitrary()
    }
}

impl List {
    /// An empty list.
    pub fn new() -> (r: Self)
        ensures
            r@ == Seq::<Extension>::empty(),
    {
        Self(Vec::new())
    }

    /// An empty list with room reserved for `capacity` extensions.
    pub fn with_capacity(capacity: usize) -> (r: Self)
        ensures
            r@ == Seq::<Extension>::empty(),
    {
        Self(Vec::with_capacity(capacity))
    }

    /// Consumes the list and returns the underlying vector.
    pub fn into_inner(self) -> (r: Vec<Extension>)
        ensures
            r@ == self@,
    {
        self.0
    }

    /// Read access to the underlying vector.
    pub fn as_vec(&self) -> (r: &Vec<Extension>)
        ensures
            r@ == self@,
    {
        &self.0
    }

    /// Exclusive access to the underlying vector.
    pub fn as_mut_vec(&mut self) -> (r: &mut Vec<Extension>)
        ensures
            r@ == old(self)@,
            final(r)@ == final(self)@,
    {
        &mut self.0
    }

    /// How many extensions the list holds.
    pub fn len(&self) -> (r: usize)
        ensures
            r == self@.len(),
    {
        self.0.len()
    }

    pub fn is_empty(&self) -> (r: bool)
        ensures
            r == (self@.len() == 0),
    {
        self.0.is_empty()
    }

    /// Empties the list and reports how many extensions were dropped.
    pub fn clear(&mut self) -> (r: usize)
        ensures
            final(self)@ == Seq::<Extension>::empty(),
            r == old(self)@.len(),
    {
        let cleared = self.0.len();
        self.0.clear();
        cleared
    }

    /// The list's allocation hint; nothing is promised of the value.
    pub fn capacity(&self) -> usize {
        vec_capacity(&self.0)
    }

    /// Reserves room for `additional` more extensions.
    pub fn reserve(self, additional: usize) -> (r: Self)
        ensures
            r@ == self@,
    {
        let mut v = self.0;
        v.reserve(additional);
        Self(v)
    }

    /// Drops the extra reserved room.
    pub fn shrink_to_fit(self) -> (r: Self)
        ensures
            r@ == self@,
    {
        let mut v = self.0;
        vec_shrink_to_fit(&mut v);
        Self(v)
    }

    /// Appends an extension.
    pub fn push(self, e: Extension) -> (r: Self)
        ensures
            r@ == self@.push(e),
    {
        let mut v = self.0;
        v.push(e);
        Self(v)
    }

    /// Appends an `Other` extension built from a key and a value.
    pub fn push_other(self, key: String, value: String) -> (r: Self)
        ensures
            r@ == self@.push(Extension::Other(key, value)),
    {
        self.push(Extension::Other(key, value))
    }

    /// Removes the first extension equal to `e` and returns it.
    pub fn remove_item(&mut self, e: &Extension) -> (r: Option<Extension>)
        ensures
            match find_ext(old(self)@, *e) {
                Some(i) => r == Some(old(self)@[i]) && final(self)@ == old(self)@.remove(i),
                None => r is None && final(self)@ == old(self)@,
            },
    {
        let n = self.0.len();
        let mut i: usize = 0;
        while i < n
            invariant
                n == self.0@.len(),
                0 <= i <= n,
                self.0@ == old(self)@,
                forall|q: int| 0 <= q < i ==> !ext_eq(old(self)@[q], *e),
            decreases n - i,
        {
            if self.0[i].eq(e) {
                proof {
                    lemma_find_ext_is(old(self)@, *e, i as int);
                }
                let x = self.0.remove(i);
                return Some(x);
            }
            i = i + 1;
        }
        proof {
            lemma_find_ext_none(old(self)@, *e);
        }
        None
    }

    /// Removes every extension equal to `e` and reports how many went away.
    pub fn remove_all(&mut self, e: &Extension) -> (r: usize)
        ensures
            final(self)@ == without_ext(old(self)@, *e),
            r == old(self)@.len() - without_ext(old(self)@, *e).len(),
    {
        let n = self.0.len();
        let mut v = self.0.split_off(0);
        let mut kept: Vec<Extension> = Vec::new();
        proof {
            assert(v@ =~= old(self)@.skip(0));
            assert(kept@ =~= without_ext(old(self)@.take(0), *e));
            lemma_without_ext_len(old(self)@, *e);
        }
        while v.len() > 0
            invariant
                n == old(self)@.len(),
                v@.len() <= n,
                v@ == old(self)@.skip(n - v@.len()),
                kept@ == without_ext(old(self)@.take(n - v@.len()), *e),
                kept@.len() <= n - v@.len(),
            decreases v@.len(),
        {
            let ghost i = n - v@.len();
            let x = v.remove(0);
            proof {
                assert(old(self)@.skip(i).drop_first() =~= old(self)@.skip(i + 1));
                assert(x == old(self)@[i]);
                assert(old(self)@.take(i + 1).drop_last() =~= old(self)@.take(i));
                assert(old(self)@.take(i + 1).last() == old(self)@[i]);
            }
            if !x.eq(e) {
                kept.push(x);
            }
        }
        proof {
            assert(old(self)@.take(n as int) =~= old(self)@);
        }
        let removed = n - kept.len();
        self.0 = kept;
        removed
    }

    /// Appends the `no_body` flag.
    pub fn no_body(self) -> (r: Self)
        ensures
            r@ == self@.push(Extension::NoBody),
    {
        self.push(Extension::NoBody)
    }

    /// Appends the `hierarchy` flag.
    pub fn hierarchy(self) -> (r: Self)
        ensures
            r@ == self@.push(Extension::Hierarchy),
    {
        self.push(Extension::Hierarchy)
    }

    /// Appends a `flat_usage` extension at the given level.
    pub fn flat_usage(self, level: u32) -> (r: Self)
        ensures
            r@.len() == self@.len() + 1,
            forall|q: int| 0 <= q < self@.len() ==> r@[q] == self@[q],
            r@.last() matches Extension::FlatUsage(v) && v@ == crate::util::chars::dec_str(
                level as int,
            ),
    {
        let rendered = crate::util::chars::u64_to_string(level as u64);
        self.push(Extension::FlatUsage(rendered))
    }

    /// The wire form of the list: its extensions' wire forms joined by
    /// ampersands.
    pub fn to_string(&self) -> (r: String)
        ensures
            r@ == list_wire(self@),
    {
        let n = self.0.len();
        let mut out: Vec<char> = Vec::new();
        let ghost mapped = self@.map_values(|x: Extension| ext_wire(x));
        if n == 0 {
            return crate::util::chars::string_of(&out);
        }
        let first = self.0[0].to_cow();
        let fc = crate::util::chars::chars_of(first.as_str());
        crate::util::chars::push_all(&fc, &mut out);
        proof {
            assert(out@ =~= crate::util::chars::join_with(mapped.take(1), seq!['&']));
        }
        let mut k: usize = 1;
        while k < n
            invariant
                1 <= k <= n,
                n == self.0@.len(),
                mapped == self@.map_values(|x: Extension| ext_wire(x)),
                out@ == crate::util::chars::join_with(mapped.take(k as int), seq!['&']),
            decreases n - k,
        {
            out.push('&');
            let piece = self.0[k].to_cow();
            let pc = crate::util::chars::chars_of(piece.as_str());
            crate::util::chars::push_all(&pc, &mut out);
            k = k + 1;
            proof {
                assert(mapped.take(k as int).drop_last() =~= mapped.take(k - 1));
                assert(mapped.take(k as int).last() == mapped[k - 1]);
                assert(out@ =~= crate::util::chars::join_with(mapped.take(k - 1), seq!['&'])
                    + seq!['&'] + mapped[k - 1]);
            }
        }
        proof {
            assert(mapped.take(n as int) =~= mapped);
        }
        crate::util::chars::string_of(&out)
    }
}

proof fn lemma_find_ext_is(s: Seq<Extension>, e: Extension, i: int)
    requires
        0 <= i < s.len(),
        ext_eq(s[i], e),
        forall|q: int| 0 <= q < i ==> !ext_eq(s[q], e),
    ensures
        find_ext(s, e) == Some(i),
    decreases s.len(),
{
    if i > 0 {
        assert forall|q: int| 0 <= q < i - 1 implies !ext_eq(s.drop_first()[q], e) by {
            assert(s.drop_first()[q] == s[q + 1]);
        }
        assert(s.drop_first()[i - 1] == s[i]);
        lemma_find_ext_is(s.drop_first(), e, i - 1);
    }
}

proof fn lemma_find_ext_none(s: Seq<Extension>, e: Extension)
    requires
        forall|q: int| 0 <= q < s.len() ==> !ext_eq(s[q], e),
    ensures
        find_ext(s, e) is None,
    decreases s.len(),
{
    if s.len() > 0 {
        assert forall|q: int| 0 <= q < s.len() - 1 implies !ext_eq(s.drop_first()[q], e) by {
            assert(s.drop_first()[q] == s[q + 1]);
        }
        lemma_find_ext_none(s.drop_first(), e);
    }
}

proof fn lemma_without_ext_len(s: Seq<Extension>, e: Extension)
    ensures
        without_ext(s, e).len() <= s.len(),
    decreases s.len(),
{
    if s.len() > 0 {
        lemma_without_ext_len(s.drop_last(), e);
    }
}

} // verus!
