use vstd::prelude::*;

use crate::{params_view, push_param};

verus! {

/// One metric name paired with the amount to report for it.
#[derive(Debug, Clone)]
pub struct MetricUsage<'m>(pub &'m str, pub &'m str);

/// The usage of a call: a list of metric/value pairs.
#[derive(Debug, Clone)]
pub struct Usage<'m>(pub Vec<MetricUsage<'m>>);

/// The parameter pair of one metric: the key wraps the metric name in the
/// `usage[...]` form, the value is the amount.
pub open spec fn metric_usage_param(mv: MetricUsage) -> (Seq<char>, Seq<char>) {
    ("usage["@ + mv.0@ + "]"@, mv.1@)
}

/// The parameter pairs contributed by a usage, one per metric, in order.
pub open spec fn usage_params(u: Usage) -> Seq<(Seq<char>, Seq<char>)> {
    u.0@.map_values(|mv: MetricUsage| metric_usage_param(mv))
}

impl<'m> From<&'m [(&'m str, &'m str)]> for Usage<'m> {
    fn from(mvs: &'m [(&'m str, &'m str)]) -> (r: Usage<'m>)
        ensures
            usage_params(r) == mvs@.map_values(
                |p: (&str, &str)| ("usage["@ + p.0@ + "]"@, p.1@),
            ),
    {
        Usage::from_pairs(mvs)
    }
}

impl<'m> vstd::std_specs::convert::FromSpecImpl<&'m [(&'m str, &'m str)]> for Usage<'m> {
    open spec fn obeys_from_spec() -> bool {
        false
    }

    open spec fn from_spec(mvs: &'m [(&'m str, &'m str)]) -> Usage<'m> {
        arbitrary()
    }
}

impl<'m> Usage<'m> {
    /// Creates a `Usage` from a slice of metric/value pairs.
    pub fn new(mv: &'m [(&'m str, &'m str)]) -> (r: Self)
        ensures
            usage_params(r) == mv@.map_values(
                |p: (&str, &str)| ("usage["@ + p.0@ + "]"@, p.1@),
            ),
    {
        Self::from_pairs(mv)
    }

    /// Creates a `Usage` from a slice of metric/value pairs.
    pub fn from_pairs(mvs: &'m [(&'m str, &'m str)]) -> (r: Self)
        ensures
            usage_params(r) == mvs@.map_values(
                |p: (&str, &str)| ("usage["@ + p.0@ + "]"@, p.1@),
            ),
    {
        let mut v: Vec<MetricUsage<'m>> = Vec::new();
        let n = mvs.len();
        let mut i: usize = 0;
        while i < n
            invariant
                n == mvs@.len(),
                0 <= i <= n,
                v@.len() == i,
                forall|q: int|
                    0 <= q < i ==> (#[trigger] v@[q]).0@ == mvs@[q].0@ && v@[q].1@ == mvs@[q].1@,
            decreases n - i,
        {
            let p = mvs[i];
            v.push(MetricUsage(p.0, p.1));
            i = i + 1;
        }
        let r = Self(v);
        proof {
            assert(usage_params(r) =~= mvs@.map_values(
                |p: (&str, &str)| ("usage["@ + p.0@ + "]"@, p.1@),
            ));
        }
        r
    }

    /// Consumes the usage and returns the underlying metric/value vector.
    pub fn into_inner(self) -> (r: Vec<MetricUsage<'m>>)
        ensures
            r == self.0,
    {
        self.0
    }

    /// Read access to the underlying metric/value vector.
    pub fn as_vec(&self) -> (r: &Vec<MetricUsage<'m>>)
        ensures
            r == self.0,
    {
        &self.0
    }

    /// Exclusive access to the underlying metric/value vector.
    pub fn as_mut_vec(&mut self) -> (r: &mut Vec<MetricUsage<'m>>)
        ensures
            r@ == old(self).0@,
            final(r)@ == final(self).0@,
    {
        &mut self.0
    }

    /// Appends this usage's parameter pairs, one per metric.
    pub fn to_params(&self, extendable: &mut Vec<(String, String)>)
        ensures
            params_view(final(extendable)@) == params_view(old(extendable)@) + usage_params(
                *self,
            ),
    {
        let n = self.0.len();
        let mut i: usize = 0;
        proof {
            assert(params_view(extendable@) =~= params_view(extendable@) + usage_params(
                *self,
            ).take(0));
        }
        while i < n
            invariant
                n == self.0@.len(),
                0 <= i <= n,
                params_view(extendable@) == params_view(old(extendable)@) + usage_params(
                    *self,
                ).take(i as int),
            decreases n - i,
        {
            let mv = &self.0[i];
            let key = "usage[".to_owned().concat(mv.0).concat("]");
            push_param(extendable, key, mv.1.to_owned());
            i = i + 1;
            proof {
                assert(usage_params(*self)[i - 1] == metric_usage_param(self.0@[i - 1]));
                assert(params_view(extendable@) =~= params_view(old(extendable)@) + usage_params(
                    *self,
                ).take(i as int));
            }
        }
        proof {
            assert(usage_params(*self).take(n as int) =~= usage_params(*self));
        }
    }
}

} // verus!
