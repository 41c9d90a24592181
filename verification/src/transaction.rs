use vstd::prelude::*;

use crate::application::{application_params, Application};
use crate::usage::{usage_params, Usage};
use crate::user::{user_params, User};
use crate::util::chars::{i64_to_string, int_dec_str};
use crate::{params_view, push_param};

verus! {

/// One transaction of an API call: the application it is about, an optional
/// user, an optional usage, and an optional timestamp.
#[derive(Debug, Clone)]
pub struct Transaction<'app, 'user, 'usage> {
    pub application: &'app Application,
    pub user: Option<&'user User>,
    pub usage: Option<&'usage Usage<'usage>>,
    pub timestamp: Option<String>,
}

/// The parameter pairs contributed by a transaction: the timestamp if there
/// is one, then the application's, the user's and the usage's pairs.
pub open spec fn transaction_params(t: Transaction) -> Seq<(Seq<char>, Seq<char>)> {
    (match t.timestamp {
        Some(ts) => seq![("timestamp"@, ts@)],
        None => Seq::empty(),
    }) + application_params(*t.application) + (match t.user {
        Some(u) => user_params(*u),
        None => Seq::empty(),
    }) + (match t.usage {
        Some(u) => usage_params(*u),
        None => Seq::empty(),
    })
}

impl<'app, 'user, 'usage> Transaction<'app, 'user, 'usage> {
    /// Builds a transaction; an integer timestamp is kept in its decimal
    /// rendering.
    pub fn new(
        application: &'app Application,
        user: Option<&'user User>,
        usage: Option<&'usage Usage<'usage>>,
        timestamp: Option<i64>,
    ) -> (r: Self)
        ensures
            r.application == application,
            r.user == user,
            r.usage == usage,
            match timestamp {
                Some(n) => r.timestamp matches Some(ts) && ts@ == int_dec_str(n as int),
                None => r.timestamp is None,
            },
    {
        let ts = match timestamp {
            Some(n) => Some(i64_to_string(n)),
            None => None,
        };
        Self { application, user, usage, timestamp: ts }
    }

    /// The application the transaction belongs to.
    pub fn application(&self) -> (r: &Application)
        ensures
            r == self.application,
    {
        self.application
    }

    /// The transaction's user, if one was set.
    pub fn user(&self) -> (r: Option<&User>)
        ensures
            r == self.user,
    {
        self.user
    }

    /// The transaction's usage, if one was set.
    pub fn usage(&self) -> (r: Option<&Usage>)
        ensures
            r == self.usage,
    {
        self.usage
    }

    /// The transaction's timestamp rendering, if one was set.
    pub fn timestamp(&self) -> (r: Option<&str>)
        ensures
            match r {
                Some(s) => self.timestamp matches Some(ts) && s@ == ts@,
                None => self.timestamp is None,
            },
    {
        match &self.timestamp {
            Some(ts) => Some(ts.as_str()),
            None => None,
        }
    }

    /// Appends this transaction's parameter pairs with each key preceded by
    /// a prefix, as report calls lay transactions out.
    pub fn to_params_prefixed(&self, extendable: &mut Vec<(String, String)>, prefix: &str)
        ensures
            params_view(final(extendable)@) == params_view(old(extendable)@) + crate::keys_prefixed(
                prefix@,
                transaction_params(*self),
            ),
    {
        let mut tmp: Vec<(String, String)> = Vec::new();
        self.to_params(&mut tmp);
        let n = tmp.len();
        let ghost plain = transaction_params(*self);
        let mut i: usize = 0;
        proof {
            assert(params_view(extendable@) =~= params_view(extendable@) + crate::keys_prefixed(
                prefix@,
                plain,
            ).take(0));
        }
        while i < n
            invariant
                n == tmp@.len(),
                0 <= i <= n,
                params_view(tmp@) == plain,
                params_view(extendable@) == params_view(old(extendable)@) + crate::keys_prefixed(
                    prefix@,
                    plain,
                ).take(i as int),
            decreases n - i,
        {
            let kv = &tmp[i];
            let key = prefix.to_owned().concat(kv.0.as_str());
            push_param(extendable, key, kv.1.clone());
            i = i + 1;
            proof {
                assert(plain[i - 1] == (tmp@[i - 1].0@, tmp@[i - 1].1@));
                assert(crate::keys_prefixed(prefix@, plain)[i - 1] == (
                    prefix@ + tmp@[i - 1].0@,
                    tmp@[i - 1].1@,
                ));
                assert(params_view(extendable@) =~= params_view(old(extendable)@)
                    + crate::keys_prefixed(prefix@, plain).take(i as int));
            }
        }
        proof {
            assert(crate::keys_prefixed(prefix@, plain).take(n as int) =~= crate::keys_prefixed(
                prefix@,
                plain,
            ));
        }
    }

    /// Appends this transaction's parameter pairs.
    pub fn to_params(&self, extendable: &mut Vec<(String, String)>)
        ensures
            params_view(final(extendable)@) == params_view(old(extendable)@) + transaction_params(
                *self,
            ),
    {
        match &self.timestamp {
            Some(ts) => {
                push_param(extendable, "timestamp".to_owned(), ts.clone());
            },
            None => {},
        }
        self.application.to_params(extendable);
        match self.user {
            Some(u) => {
                u.to_params(extendable);
            },
            None => {},
        }
        match self.usage {
            Some(u) => {
                u.to_params(extendable);
            },
            None => {},
        }
        proof {
            assert(params_view(extendable@) =~= params_view(old(extendable)@)
                + transaction_params(*self));
        }
    }
}

} // verus!
