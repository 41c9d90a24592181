use vstd::prelude::*;

use crate::extensions::List;
use crate::service::{service_params, Service};
use crate::transaction::{transaction_params, Transaction};
use crate::util::chars::dec_str;
use crate::{keys_prefixed, params_view, push_param};

verus! {

/// The kind of an API call.
#[derive(Copy, Clone, Debug, PartialEq, Eq, Structural)]
pub enum Kind {
    Authorize,
    AuthRep,
    Report,
}

impl Kind {
    /// Report is the only call that carries multiple transactions, so it gets
    /// specific treatment when parameters are laid out.
    pub fn is_report(self) -> (r: bool)
        ensures
            r == (self is Report),
    {
        matches!(self, Kind::Report)
    }
}

/// The prefix of a transaction's keys in a report call: the Rack-style
/// `transactions[n]` form that Apisonator takes.
pub open spec fn txn_prefix(n: int) -> Seq<char> {
    "transactions["@ + dec_str(n) + "]"@
}

/// The parameter pairs of a list of transactions laid out plainly, in order.
pub open spec fn txns_params_plain(ts: Seq<Transaction>) -> Seq<(Seq<char>, Seq<char>)>
    decreases ts.len(),
{
    if ts.len() == 0 {
        Seq::empty()
    } else {
        txns_params_plain(ts.drop_last()) + transaction_params(ts.last())
    }
}

/// The parameter pairs of a list of transactions in report form: the pairs of
/// the transaction at position `n` have their keys prefixed by
/// `transactions[n]`.
pub open spec fn txns_params_report(ts: Seq<Transaction>) -> Seq<(Seq<char>, Seq<char>)>
    decreases ts.len(),
{
    if ts.len() == 0 {
        Seq::empty()
    } else {
        txns_params_report(ts.drop_last()) + keys_prefixed(
            txn_prefix(ts.len() - 1),
            transaction_params(ts.last()),
        )
    }
}

/// An API call: its kind, the service it is addressed to, its transactions
/// and optional extensions.
#[derive(Copy, Clone, Debug)]
pub struct ApiCall<'a> {
    kind: Kind,
    service: &'a Service,
    transactions: &'a [Transaction<'a, 'a, 'a>],
    extensions: Option<&'a List>,
}

/// The parameter pairs of a whole call: the service's pairs, then each
/// transaction's, prefixed per transaction for a report call.
pub open spec fn api_call_params(c: ApiCall) -> Seq<(Seq<char>, Seq<char>)> {
    service_params(*c.spec_service()) + if c.spec_kind() is Report {
        txns_params_report(c.spec_transactions()@)
    } else {
        txns_params_plain(c.spec_transactions()@)
    }
}

/// A builder for an `ApiCall`; `kind` must be set before `build`.
#[derive(Copy, Clone, Debug)]
pub struct Builder<'a> {
    pub service: &'a Service,
    pub kind: Option<Kind>,
    pub transactions: &'a [Transaction<'a, 'a, 'a>],
    pub extensions: Option<&'a List>,
}

impl<'a> Builder<'a> {
    pub fn new(service: &'a Service) -> (r: Self)
        ensures
            r.service == service,
            r.kind is None,
            r.transactions@.len() == 0,
            r.extensions is None,
    {
        Builder { service, kind: None, transactions: &[], extensions: None }
    }

    pub fn service(&mut self, s: &'a Service) -> (r: &mut Self)
        ensures
            *r == (Builder { service: s, ..*old(self) }),
            *final(r) == *final(self),
    {
        self.service = s;
        self
    }

    pub fn kind(&mut self, t: Kind) -> (r: &mut Self)
        ensures
            *r == (Builder { kind: Some(t), ..*old(self) }),
            *final(r) == *final(self),
    {
        self.kind = Some(t);
        self
    }

    pub fn transactions(&mut self, txns: &'a [Transaction<'a, 'a, 'a>]) -> (r: &mut Self)
        ensures
            *r == (Builder { transactions: txns, ..*old(self) }),
            *final(r) == *final(self),
    {
        self.transactions = txns;
        self
    }

    pub fn extensions(&mut self, extensions: &'a List) -> (r: &mut Self)
        ensures
            *r == (Builder { extensions: Some(extensions), ..*old(self) }),
            *final(r) == *final(self),
    {
        self.extensions = Some(extensions);
        self
    }

    /// Builds the call; fails exactly when no kind was set.
    pub fn build(&self) -> (r: Result<ApiCall<'a>, crate::Error>)
        ensures
            r is Err <==> self.kind is None,
            r matches Ok(c) ==> {
                &&& self.kind matches Some(k) && c.kind() == k
                &&& c.service() == self.service
                &&& c.transactions() == self.transactions
                &&& c.extensions() == self.extensions
            },
    {
        let kind = match self.kind {
            Some(k) => k,
            None => {
                return Err(crate::Error::BuilderPatternBuildErr);
            },
        };
        Ok(ApiCall::new(kind, self.service, self.transactions, self.extensions))
    }
}

impl<'a> ApiCall<'a> {
    pub closed spec fn spec_kind(&self) -> Kind {
        self.kind
    }

    pub closed spec fn spec_service(&self) -> &'a Service {
        self.service
    }

    pub closed spec fn spec_transactions(&self) -> &'a [Transaction<'a, 'a, 'a>] {
        self.transactions
    }

    pub closed spec fn spec_extensions(&self) -> Option<&'a List> {
        self.extensions
    }

    /// The single transaction's application, when there is exactly one.
    pub open spec fn spec_application(&self) -> Option<&'a crate::application::Application> {
        if self.spec_transactions()@.len() == 1 {
            Some(self.spec_transactions()@[0].application)
        } else {
            None
        }
    }

    /// The single transaction's user, when there is exactly one.
    pub open spec fn spec_user(&self) -> Option<&'a crate::user::User> {
        if self.spec_transactions()@.len() == 1 {
            self.spec_transactions()@[0].user
        } else {
            None
        }
    }

    /// The kind of the call.
    #[verifier::when_used_as_spec(spec_kind)]
    pub fn kind(&self) -> (r: Kind)
        ensures
            r == self.spec_kind(),
    {
        self.kind
    }

    /// The service the call is addressed to.
    #[verifier::when_used_as_spec(spec_service)]
    pub fn service(&self) -> (r: &'a Service)
        ensures
            r == self.spec_service(),
    {
        self.service
    }

    /// The call's transactions.
    #[verifier::when_used_as_spec(spec_transactions)]
    pub fn transactions(&self) -> (r: &'a [Transaction<'a, 'a, 'a>])
        ensures
            r == self.spec_transactions(),
    {
        self.transactions
    }

    /// The call's extensions, if any.
    #[verifier::when_used_as_spec(spec_extensions)]
    pub fn extensions(&self) -> (r: Option<&'a List>)
        ensures
            r == self.spec_extensions(),
    {
        self.extensions
    }

    /// A builder over the given service.
    pub fn builder(service: &'a Service) -> (r: Builder<'a>)
        ensures
            r.service == service,
            r.kind is None,
            r.transactions@.len() == 0,
            r.extensions is None,
    {
        Builder::new(service)
    }

    pub fn new(
        kind: Kind,
        service: &'a Service,
        transactions: &'a [Transaction<'a, 'a, 'a>],
        extensions: Option<&'a List>,
    ) -> (r: Self)
        ensures
            r.kind() == kind,
            r.service() == service,
            r.transactions() == transactions,
            r.extensions() == extensions,
    {
        Self { kind, service, transactions, extensions }
    }

    /// A transaction, only if it is the only one; useful for the calls other
    /// than report, which admit exactly one.
    pub fn transaction(&self) -> (r: Option<&Transaction<'a, 'a, 'a>>)
        ensures
            if self.transactions()@.len() == 1 {
                r matches Some(t) && *t == self.transactions()@[0]
            } else {
                r is None
            },
    {
        let txns = self.transactions;
        if txns.len() == 1 {
            Some(&txns[0])
        } else {
            None
        }
    }

    /// The single transaction's application, if there is a single one.
    pub fn application(&self) -> (r: Option<&'a crate::application::Application>)
        ensures
            r == self.spec_application(),
    {
        match self.transaction() {
            Some(t) => Some(t.application),
            None => None,
        }
    }

    /// The single transaction's user, if there is a single one and it has
    /// one.
    pub fn user(&self) -> (r: Option<&'a crate::user::User>)
        ensures
            r == self.spec_user(),
    {
        match self.transaction() {
            Some(t) => t.user,
            None => None,
        }
    }

    /// The single transaction's usage, if there is a single one and it has
    /// one.
    pub fn usage(&self) -> (r: Option<&crate::usage::Usage>)
        ensures
            if self.transactions()@.len() == 1 {
                r == self.transactions()@[0].usage
            } else {
                r is None
            },
    {
        match self.transaction() {
            Some(t) => t.usage(),
            None => None,
        }
    }

    /// The call's parameter pairs.
    pub fn params(&self) -> (r: Vec<(String, String)>)
        ensures
            params_view(r@) == api_call_params(*self),
    {
        let mut out: Vec<(String, String)> = Vec::new();
        self.to_params(&mut out);
        proof {
            assert(params_view(out@) =~= api_call_params(*self));
        }
        out
    }

    /// Appends the call's parameter pairs: the service's, then each
    /// transaction's, with `transactions[n]` key prefixes for a report call.
    pub fn to_params(&self, extendable: &mut Vec<(String, String)>)
        ensures
            params_view(final(extendable)@) == params_view(old(extendable)@) + api_call_params(
                *self,
            ),
    {
        self.service.to_params(extendable);
        let txns = self.transactions;
        let n = txns.len();
        let report = matches!(self.kind, Kind::Report);
        let ghost txview = self.transactions@;
        let ghost goal = if self.kind is Report {
            txns_params_report(txview)
        } else {
            txns_params_plain(txview)
        };
        let ghost base = params_view(extendable@);
        let mut e: usize = 0;
        proof {
            assert(txview.take(0) =~= Seq::<Transaction>::empty());
            assert(params_view(extendable@) =~= base + txns_params_plain(txview.take(0)));
            assert(params_view(extendable@) =~= base + txns_params_report(txview.take(0)));
        }
        while e < n
            invariant
                n == txview.len(),
                0 <= e <= n,
                txview == self.transactions@,
                txns@ == txview,
                report == (self.kind is Report),
                base == params_view(old(extendable)@) + service_params(*self.service()),
                params_view(extendable@) == base + if report {
                    txns_params_report(txview.take(e as int))
                } else {
                    txns_params_plain(txview.take(e as int))
                },
            decreases n - e,
        {
            let tx = &txns[e];
            if report {
                let prefix = "transactions[".to_owned().concat(
                    crate::util::chars::u64_to_string(e as u64).as_str(),
                ).concat("]");
                tx.to_params_prefixed(extendable, prefix.as_str());
            } else {
                tx.to_params(extendable);
            }
            e = e + 1;
            proof {
                assert(txview.take(e as int).drop_last() =~= txview.take(e - 1));
                assert(txview.take(e as int).last() == txview[e - 1]);
                if report {
                    assert(params_view(extendable@) =~= base + txns_params_report(
                        txview.take(e as int),
                    ));
                } else {
                    assert(params_view(extendable@) =~= base + txns_params_plain(
                        txview.take(e as int),
                    ));
                }
            }
        }
        proof {
            assert(txview.take(n as int) =~= txview);
            assert(params_view(extendable@) =~= params_view(old(extendable)@) + api_call_params(
                *self,
            ));
        }
    }
}

} // verus!
