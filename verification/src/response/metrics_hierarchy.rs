use vstd::prelude::*;

use crate::util::chars::{lex_lt, str_eq, str_lt};

verus! {

/// The parent/children relations between metrics, kept sorted by parent name
/// as an ordered map iterates, with parents unique.
#[derive(Debug, Clone, PartialEq, Default)]
pub struct MetricsHierarchy(Vec<(String, Vec<String>)>);

/// Parent names strictly ascending: sorted and free of duplicates.
pub open spec fn hierarchy_sorted(s: Seq<(String, Vec<String>)>) -> bool {
    forall|i: int| 0 <= i < s.len() - 1 ==> lex_lt((#[trigger] s[i]).0@, s[i + 1].0@)
}

impl View for MetricsHierarchy {
    type V = Seq<(String, Vec<String>)>;

    closed spec fn view(&self) -> Seq<(String, Vec<String>)> {
        self.0@
    }
}

/// The position a parent name belongs at: the first entry whose name does
/// not order strictly before it, or the end.
pub open spec fn hierarchy_pos(s: Seq<(String, Vec<String>)>, k: Seq<char>) -> int
    decreases s.len(),
{
    if s.len() == 0 {
        0
    } else if !lex_lt(s[0].0@, k) {
        0
    } else {
        1 + hierarchy_pos(s.drop_first(), k)
    }
}

proof fn lemma_hierarchy_pos_is(s: Seq<(String, Vec<String>)>, k: Seq<char>, i: int)
    requires
        0 <= i <= s.len(),
        forall|q: int| 0 <= q < i ==> lex_lt((#[trigger] s[q]).0@, k),
        i < s.len() ==> !lex_lt(s[i].0@, k),
    ensures
        hierarchy_pos(s, k) == i,
    decreases s.len(),
{
    if i > 0 {
        assert forall|q: int| 0 <= q < i - 1 implies lex_lt(
            (#[trigger] s.drop_first()[q]).0@,
            k,
        ) by {
            assert(s.drop_first()[q] == s[q + 1]);
        }
        if i - 1 < s.drop_first().len() {
            assert(s.drop_first()[i - 1] == s[i]);
        }
        lemma_hierarchy_pos_is(s.drop_first(), k, i - 1);
    }
}

/// The first position whose parent name reads `k`.
pub open spec fn hierarchy_key_idx(s: Seq<(String, Vec<String>)>, k: Seq<char>) -> Option<int>
    decreases s.len(),
{
    if s.len() == 0 {
        None
    } else if s[0].0@ == k {
        Some(0)
    } else {
        match hierarchy_key_idx(s.drop_first(), k) {
            None => None,
            Some(i) => Some(i + 1),
        }
    }
}

proof fn lemma_hierarchy_key_idx_is(s: Seq<(String, Vec<String>)>, k: Seq<char>, i: int)
    requires
        0 <= i < s.len(),
        s[i].0@ == k,
        forall|q: int| 0 <= q < i ==> (#[trigger] s[q]).0@ != k,
    ensures
        hierarchy_key_idx(s, k) == Some(i),
    decreases s.len(),
{
    if i > 0 {
        assert forall|q: int| 0 <= q < i - 1 implies (#[trigger] s.drop_first()[q]).0@ != k by {
            assert(s.drop_first()[q] == s[q + 1]);
        }
        assert(s.drop_first()[i - 1] == s[i]);
        lemma_hierarchy_key_idx_is(s.drop_first(), k, i - 1);
    }
}

proof fn lemma_hierarchy_key_idx_none(s: Seq<(String, Vec<String>)>, k: Seq<char>)
    requires
        forall|q: int| 0 <= q < s.len() ==> (#[trigger] s[q]).0@ != k,
    ensures
        hierarchy_key_idx(s, k) is None,
    decreases s.len(),
{
    if s.len() > 0 {
        assert forall|q: int| 0 <= q < s.len() - 1 implies (#[trigger] s.drop_first()[q]).0@
            != k by {
            assert(s.drop_first()[q] == s[q + 1]);
        }
        lemma_hierarchy_key_idx_none(s.drop_first(), k);
    }
}

/// Whether a children list holds the given metric name.
pub open spec fn children_contain(children: Seq<String>, name: Seq<char>) -> bool {
    exists|i: int| 0 <= i < children.len() && (#[trigger] children[i])@ == name
}

/// The first entry, in parent order, whose children hold the given name.
pub open spec fn parent_in(s: Seq<(String, Vec<String>)>, name: Seq<char>) -> Option<int>
    decreases s.len(),
{
    if s.len() == 0 {
        None
    } else if children_contain(s[0].1@, name) {
        Some(0)
    } else {
        match parent_in(s.drop_first(), name) {
            None => None,
            Some(i) => Some(i + 1),
        }
    }
}

proof fn lemma_parent_in_is(s: Seq<(String, Vec<String>)>, name: Seq<char>, i: int)
    requires
        0 <= i < s.len(),
        children_contain(s[i].1@, name),
        forall|q: int| 0 <= q < i ==> !children_contain((#[trigger] s[q]).1@, name),
    ensures
        parent_in(s, name) == Some(i),
    decreases s.len(),
{
    if i > 0 {
        assert forall|q: int| 0 <= q < i - 1 implies !children_contain(
            (#[trigger] s.drop_first()[q]).1@,
            name,
        ) by {
            assert(s.drop_first()[q] == s[q + 1]);
        }
        assert(s.drop_first()[i - 1] == s[i]);
        lemma_parent_in_is(s.drop_first(), name, i - 1);
    }
}

proof fn lemma_parent_in_none(s: Seq<(String, Vec<String>)>, name: Seq<char>)
    requires
        forall|q: int| 0 <= q < s.len() ==> !children_contain((#[trigger] s[q]).1@, name),
    ensures
        parent_in(s, name) is None,
    decreases s.len(),
{
    if s.len() > 0 {
        assert forall|q: int| 0 <= q < s.len() - 1 implies !children_contain(
            (#[trigger] s.drop_first()[q]).1@,
            name,
        ) by {
            assert(s.drop_first()[q] == s[q + 1]);
        }
        lemma_parent_in_none(s.drop_first(), name);
    }
}

/// Whether a children vector holds the given name.
fn contains_name(children: &Vec<String>, name: &str) -> (r: bool)
    ensures
        r == children_contain(children@, name@),
{
    let n = children.len();
    let mut i: usize = 0;
    while i < n
        invariant
            n == children@.len(),
            0 <= i <= n,
            forall|q: int| 0 <= q < i ==> (#[trigger] children@[q])@ != name@,
        decreases n - i,
    {
        if str_eq(children[i].as_str(), name) {
            return true;
        }
        i = i + 1;
    }
    false
}

impl MetricsHierarchy {
    /// An empty hierarchy.
    pub fn new() -> (r: Self)
        ensures
            r@ == Seq::<(String, Vec<String>)>::empty(),
    {
        Self(Vec::new())
    }

    /// Sets the children of a parent metric: an existing parent keeps its
    /// position and gets the new children, with the old ones returned; a new
    /// parent lands at its sorted position.
    pub fn insert(&mut self, parent_metric: String, children_metrics: Vec<String>) -> (r: Option<
        Vec<String>,
    >)
        ensures
            ({
                let p = hierarchy_pos(old(self)@, parent_metric@);
                if p < old(self)@.len() && old(self)@[p].0@ == parent_metric@ {
                    (r matches Some(x) && x == old(self)@[p].1) && final(self)@ == old(
                        self,
                    )@.update(p, (old(self)@[p].0, children_metrics))
                } else {
                    r is None && final(self)@ == old(self)@.insert(
                        p,
                        (parent_metric, children_metrics),
                    )
                }
            }),
            hierarchy_sorted(old(self)@) ==> hierarchy_sorted(final(self)@),
    {
        let ghost kview = parent_metric@;
        let n = self.0.len();
        let mut i: usize = 0;
        while i < n && str_lt(self.0[i].0.as_str(), parent_metric.as_str())
            invariant
                n == self.0@.len(),
                self.0@ == old(self)@,
                0 <= i <= n,
                forall|q: int| 0 <= q < i ==> lex_lt((#[trigger] old(self)@[q]).0@, parent_metric@),
            decreases n - i,
        {
            i = i + 1;
        }
        proof {
            lemma_hierarchy_pos_is(old(self)@, parent_metric@, i as int);
        }
        if i < n && str_eq(self.0[i].0.as_str(), parent_metric.as_str()) {
            let pair = self.0.remove(i);
            self.0.insert(i, (pair.0, children_metrics));
            proof {
                assert(self.0@ =~= old(self)@.update(
                    i as int,
                    (old(self)@[i as int].0, children_metrics),
                ));
                if hierarchy_sorted(old(self)@) {
                    let t = self.0@;
                    assert forall|q: int| 0 <= q < t.len() - 1 implies lex_lt(
                        (#[trigger] t[q]).0@,
                        t[q + 1].0@,
                    ) by {
                        assert(t[q].0 == old(self)@[q].0);
                        assert(t[q + 1].0 == old(self)@[q + 1].0);
                    }
                }
            }
            Some(pair.1)
        } else {
            self.0.insert(i, (parent_metric, children_metrics));
            proof {
                if hierarchy_sorted(old(self)@) {
                    let s0 = old(self)@;
                    let p = i as int;
                    let t = self.0@;
                    assert forall|q: int| 0 <= q < t.len() - 1 implies lex_lt(
                        (#[trigger] t[q]).0@,
                        t[q + 1].0@,
                    ) by {
                        if q + 1 < p {
                            assert(t[q] == s0[q]);
                            assert(t[q + 1] == s0[q + 1]);
                        } else if q + 1 == p {
                            assert(t[q] == s0[q]);
                            assert(t[p].0@ == kview);
                        } else if q == p {
                            assert(t[q].0@ == kview);
                            assert(t[q + 1] == s0[q]);
                            assert(s0[p].0@ != kview);
                            crate::util::chars::lemma_lex_lt_trichotomy(kview, s0[p].0@);
                        } else {
                            assert(t[q] == s0[q - 1]);
                            assert(t[q + 1] == s0[q]);
                        }
                    }
                }
            }
            None
        }
    }

    /// Removes a parent metric's entry and returns its children.
    pub fn remove(&mut self, parent_metric: &str) -> (r: Option<Vec<String>>)
        ensures
            match hierarchy_key_idx(old(self)@, parent_metric@) {
                Some(i) => (r matches Some(x) && x == old(self)@[i].1) && final(self)@ == old(
                    self,
                )@.remove(i),
                None => r is None && final(self)@ == old(self)@,
            },
    {
        let n = self.0.len();
        let mut i: usize = 0;
        while i < n
            invariant
                n == self.0@.len(),
                self.0@ == old(self)@,
                0 <= i <= n,
                forall|q: int| 0 <= q < i ==> (#[trigger] old(self)@[q]).0@ != parent_metric@,
            decreases n - i,
        {
            if str_eq(self.0[i].0.as_str(), parent_metric) {
                proof {
                    lemma_hierarchy_key_idx_is(old(self)@, parent_metric@, i as int);
                }
                let pair = self.0.remove(i);
                return Some(pair.1);
            }
            i = i + 1;
        }
        proof {
            lemma_hierarchy_key_idx_none(old(self)@, parent_metric@);
        }
        None
    }

    /// Read access to the relations, in parent order.
    pub fn iter(&self) -> (r: &Vec<(String, Vec<String>)>)
        ensures
            r@ == self@,
    {
        &self.0
    }

    /// Exclusive access to the relations; keeping the order is then the
    /// caller's business.
    pub fn iter_mut(&mut self) -> (r: &mut Vec<(String, Vec<String>)>)
        ensures
            r@ == old(self)@,
            final(r)@ == final(self)@,
    {
        &mut self.0
    }

    /// Consumes the hierarchy and returns the underlying relations.
    pub fn into_inner(self) -> (r: Vec<(String, Vec<String>)>)
        ensures
            r@ == self@,
    {
        self.0
    }

    /// The parent of a metric, if any: metrics have at most one parent, so
    /// the first entry whose children hold the name answers.
    pub fn parent_of(&self, metric_name: &str) -> (r: Option<&str>)
        ensures
            match parent_in(self@, metric_name@) {
                Some(i) => r matches Some(p) && p@ == self@[i].0@,
                None => r is None,
            },
    {
        let n = self.0.len();
        let mut i: usize = 0;
        while i < n
            invariant
                n == self.0@.len(),
                0 <= i <= n,
                forall|q: int|
                    0 <= q < i ==> !children_contain((#[trigger] self.0@[q]).1@, metric_name@),
            decreases n - i,
        {
            if contains_name(&self.0[i].1, metric_name) {
                proof {
                    lemma_parent_in_is(self@, metric_name@, i as int);
                }
                return Some(self.0[i].0.as_str());
            }
            i = i + 1;
        }
        proof {
            lemma_parent_in_none(self@, metric_name@);
        }
        None
    }
}

} // verus!
