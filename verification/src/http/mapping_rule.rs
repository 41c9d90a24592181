// HTTP mapping rules: a compiled matcher over a path-and-query template, with
// wildcard-aware method comparison, duplicate-slash coalescing, prefix-style
// path matching and order-independent, consume-once query matching.
use vstd::prelude::*;

pub mod escaping;
mod method;

pub use method::caps_parses_to;
pub use method::is_canonical_verb_name;
pub use method::lemma_method_eq_distinct;
pub use method::lemma_method_eq_reflexive;
pub use method::lemma_method_eq_symmetric;
pub use method::lemma_method_eq_wildcard;
pub use method::lemma_method_parse_roundtrip;
pub use method::method_eq;
pub use method::method_name;
pub use method::parses_to;
pub use method::token_matches_method;
pub use method::Method;

use crate::util::chars::{
    chars_of, coalesced, find_from, push_all, replace_vec, replaced, split_chars, split_on_char,
    string_of, subvec,
};
use escaping::{
    path_class, path_literal, path_pattern, path_template_ok, qs_class, qs_pattern_list,
    qs_template_ok, regex_accepts, CompiledPattern,
};

verus! {

/// Error of the HTTP request-line parser: the line held fewer than two
/// space-delimited tokens.
#[derive(Debug, Clone, Copy, PartialEq, Eq, Structural)]
pub enum HttpLineError {
    ParsingError,
}

/// The abstract content of a compiled rule: its method, the text of the
/// compiled path pattern, and the texts of the per-segment query patterns.
pub ghost struct RestRuleView {
    pub method: Method,
    pub path: Seq<char>,
    pub qs: Option<Seq<Seq<char>>>,
}

/// A compiled mapping rule. Immutable once built; matching only reads.
#[derive(Debug, Clone)]
pub struct RestRule {
    method: Method,
    path: CompiledPattern,
    qs: Option<Vec<CompiledPattern>>,
}

impl View for RestRule {
    type V = RestRuleView;

    closed spec fn view(&self) -> RestRuleView {
        RestRuleView {
            method: self.method,
            path: self.path@,
            qs: match self.qs {
                None => None,
                Some(ps) => Some(ps@.map_values(|p: CompiledPattern| p@)),
            },
        }
    }
}

// ---- the greedy query-matching algorithm, in specification form ----

/// The first candidate segment the pattern matches, if any.
pub open spec fn first_match_idx(p: Seq<char>, segs: Seq<Seq<char>>) -> Option<int>
    decreases segs.len(),
{
    if segs.len() == 0 {
        None
    } else if regex_accepts(p, segs[0]) {
        Some(0)
    } else {
        match first_match_idx(p, segs.drop_first()) {
            None => None,
            Some(i) => Some(i + 1),
        }
    }
}

/// The index the executable search finds is the one the specification names.
proof fn lemma_first_match_idx_is(p: Seq<char>, segs: Seq<Seq<char>>, i: int)
    requires
        0 <= i < segs.len(),
        regex_accepts(p, segs[i]),
        forall|k: int| 0 <= k < i ==> !regex_accepts(p, segs[k]),
    ensures
        first_match_idx(p, segs) == Some(i),
    decreases segs.len(),
{
    if i > 0 {
        assert forall|k: int| 0 <= k < i - 1 implies !regex_accepts(p, segs.drop_first()[k]) by {
            assert(segs.drop_first()[k] == segs[k + 1]);
        }
        assert(segs.drop_first()[i - 1] == segs[i]);
        lemma_first_match_idx_is(p, segs.drop_first(), i - 1);
    }
}

proof fn lemma_first_match_idx_none(p: Seq<char>, segs: Seq<Seq<char>>)
    requires
        forall|k: int| 0 <= k < segs.len() ==> !regex_accepts(p, segs[k]),
    ensures
        first_match_idx(p, segs) is None,
    decreases segs.len(),
{
    if segs.len() > 0 {
        assert forall|k: int| 0 <= k < segs.len() - 1 implies !regex_accepts(
            p,
            segs.drop_first()[k],
        ) by {
            assert(segs.drop_first()[k] == segs[k + 1]);
        }
        lemma_first_match_idx_none(p, segs.drop_first());
    }
}

/// The greedy, consume-once query match: each pattern, in template order,
/// claims the first still-unclaimed candidate segment it matches; a claimed
/// segment cannot be reused; unmatched candidates are ignored.
pub open spec fn greedy_qs_match(ps: Seq<Seq<char>>, segs: Seq<Seq<char>>) -> bool
    decreases ps.len(),
{
    if ps.len() == 0 {
        true
    } else {
        match first_match_idx(ps[0], segs) {
            None => false,
            Some(i) => greedy_qs_match(ps.drop_first(), segs.remove(i)),
        }
    }
}

/// The candidate segments of an optional query string: a missing query string
/// is matched like an empty one, which yields a single empty segment.
pub open spec fn qs_candidates(qs: Option<Seq<char>>) -> Seq<Seq<char>> {
    split_on_char(
        match qs {
            None => Seq::<char>::empty(),
            Some(q) => q,
        },
        '&',
    )
}

/// Whether a rule matches an already-split path and optional query string:
/// the coalesced path must match the anchored path pattern, and, if the rule
/// has a query template, the greedy consume-once algorithm must place every
/// segment pattern.
pub open spec fn rule_matches_path_n_qs(
    rv: RestRuleView,
    path: Seq<char>,
    qs: Option<Seq<char>>,
) -> bool {
    (match rv.qs {
        None => true,
        Some(ps) => greedy_qs_match(ps, qs_candidates(qs)),
    }) && regex_accepts(rv.path, coalesced(path, '/'))
}

/// Whether a rule matches a combined path-and-query string, split on the
/// first question mark.
pub open spec fn rule_matches_path_with_qs(rv: RestRuleView, path_qs: Seq<char>) -> bool {
    match find_from(path_qs, '?', 0) {
        None => rule_matches_path_n_qs(rv, path_qs, None),
        Some(i) => rule_matches_path_n_qs(rv, path_qs.take(i), Some(path_qs.skip(i + 1))),
    }
}

/// The two tokens of an HTTP request line that matching uses: the method
/// token and the path-and-query token.
pub open spec fn request_line_tokens(line: Seq<char>) -> Option<(Seq<char>, Seq<char>)> {
    match find_from(line, ' ', 0) {
        None => None,
        Some(i) => Some(
            (
                line.take(i),
                match find_from(line, ' ', i + 1) {
                    None => line.skip(i + 1),
                    Some(k) => line.subrange(i + 1, k),
                },
            ),
        ),
    }
}

/// What is left of a pattern text once the start anchor is dropped.
pub open spec fn drop_anchor(s: Seq<char>) -> Seq<char> {
    if s.len() >= 2 {
        s.skip(2)
    } else {
        Seq::<char>::empty()
    }
}

/// The human-readable template reconstructed from a rule's compiled pattern
/// texts: anchors dropped, every placeholder class shown as a generic `{_}`
/// marker. An approximate inverse of compilation; placeholder names are lost.
pub open spec fn reconstructed(rv: RestRuleView) -> Seq<char> {
    let p = drop_anchor(replaced(rv.path, path_class(), "{_}"@));
    match rv.qs {
        None => p,
        Some(qs) => if qs.len() == 0 {
            p
        } else {
            p + seq!['?'] + crate::util::chars::join_with(
                qs.map_values(|kv: Seq<char>| drop_anchor(replaced(kv, qs_class(), "{_}"@))),
                seq!['&'],
            )
        },
    }
}

impl RestRule {
    /// Compiles a rule from a method and a combined path-and-query template.
    /// Construction is the only fallible operation: it succeeds exactly when
    /// the engine takes the compiled path pattern and, if a query template
    /// was given, every compiled query segment pattern.
    pub fn new(method: Method, path_n_qs: &str) -> (r: Result<Self, escaping::Error>)
        ensures
            r is Ok <==> (match find_from(path_n_qs@, '?', 0) {
                None => path_template_ok(path_n_qs@),
                Some(i) => path_template_ok(path_n_qs@.take(i)) && qs_template_ok(
                    path_n_qs@.skip(i + 1),
                ),
            }),
            r matches Ok(rule) ==> {
                &&& rule@.method == method
                &&& match find_from(path_n_qs@, '?', 0) {
                    None => rule@.path == path_pattern(path_n_qs@) && rule@.qs is None,
                    Some(i) => rule@.path == path_pattern(path_n_qs@.take(i)) && rule@.qs == Some(
                        qs_pattern_list(path_n_qs@.skip(i + 1)),
                    ),
                }
            },
            r matches Err(e) ==> (e is RegexTooBig <==> (match find_from(path_n_qs@, '?', 0) {
                None => path_literal(path_n_qs@).len() + 2 > usize::MAX,
                Some(i) => path_literal(path_n_qs@.take(i)).len() + 2 > usize::MAX,
            })),
    {
        let (path, qs) = escaping::split_path_n_qs(path_n_qs);
        Self::with_path_n_qs(method, path, qs)
    }

    /// Compiles a rule from a method, a path template and an optional query
    /// template. It succeeds exactly when the engine takes the compiled path
    /// pattern and every compiled query segment pattern; a failing path
    /// compilation reports its own error, an oversized path expansion is the
    /// only source of `RegexTooBig`.
    pub fn with_path_n_qs(method: Method, path: &str, qs: Option<&str>) -> (r: Result<
        Self,
        escaping::Error,
    >)
        ensures
            r is Ok <==> (path_template_ok(path@) && (match qs {
                None => true,
                Some(q) => qs_template_ok(q@),
            })),
            r matches Ok(rule) ==> {
                &&& rule@.method == method
                &&& rule@.path == path_pattern(path@)
                &&& match qs {
                    None => rule@.qs is None,
                    Some(q) => rule@.qs == Some(qs_pattern_list(q@)),
                }
            },
            r matches Err(e) ==> (e is RegexTooBig <==> path_literal(path@).len() + 2
                > usize::MAX),
    {
        let path = match escaping::path_regex(path) {
            Ok(p) => p,
            Err(e) => {
                return Err(e);
            },
        };
        let qs = match qs {
            None => None,
            Some(q) => match escaping::query_string_regex(q) {
                Ok(ps) => Some(ps),
                Err(e) => {
                    return Err(e);
                },
            },
        };
        Ok(Self { method, path, qs })
    }

    /// Whether the rule matches the given method and combined path-and-query.
    pub fn matches(&self, method: &Method, path_qs: &str) -> (r: bool)
        ensures
            r == (method_eq(*method, self@.method) && rule_matches_path_with_qs(
                self@,
                path_qs@,
            )),
    {
        method.eq(&self.method) && self.matches_path_with_qs(path_qs)
    }

    /// Parses an HTTP request line and matches its first two tokens against
    /// the rule. A line with fewer than two space-delimited tokens is a parse
    /// error, not a non-match.
    pub fn matches_request_line(&self, http_request_line: &str) -> (r: Result<
        bool,
        HttpLineError,
    >)
        ensures
            r is Err <==> request_line_tokens(http_request_line@) is None,
            r matches Ok(b) ==> (request_line_tokens(http_request_line@) matches Some(toks) && b
                == (token_matches_method(toks.0, self@.method) && rule_matches_path_with_qs(
                self@,
                toks.1,
            ))),
    {
        let v = chars_of(http_request_line);
        let n = v.len();
        let i = match crate::util::chars::find_char(&v, ' ', 0) {
            None => {
                return Err(HttpLineError::ParsingError);
            },
            Some(i) => i,
        };
        let tok = string_of(&subvec(&v, 0, i));
        let method = Method::from(tok.as_str());
        proof {
            assert(i < n);
        }
        let rest_end = match crate::util::chars::find_char(&v, ' ', i + 1) {
            None => v.len(),
            Some(k) => k,
        };
        proof {
            crate::util::chars::lemma_find_from_bounds(http_request_line@, ' ', i + 1);
        }
        let path_n_qs = string_of(&subvec(&v, i + 1, rest_end));
        proof {
            assert(v@.subrange(0, i as int) =~= http_request_line@.take(i as int));
            if find_from(v@, ' ', i + 1) is None {
                assert(v@.subrange(i + 1, v@.len() as int) =~= http_request_line@.skip(i + 1));
            }
            method::lemma_token_matches_method(tok@, method, self@.method);
        }
        Ok(self.matches(&method, path_n_qs.as_str()))
    }

    /// Whether the rule matches an already-split path and optional query
    /// string.
    pub fn matches_path_n_qs(&self, path: &str, qs: Option<&str>) -> (r: bool)
        ensures
            r == rule_matches_path_n_qs(
                self@,
                path@,
                match qs {
                    None => None,
                    Some(q) => Some(q@),
                },
            ),
    {
        let qs_ok = match &self.qs {
            None => true,
            Some(qs_regexes) => {
                let qstr: &str = match qs {
                    Some(q) => q,
                    None => "",
                };
                proof {
                    reveal_strlit("");
                    assert(""@ =~= Seq::<char>::empty());
                }
                let qv = chars_of(qstr);
                let parts = split_chars(&qv, '&');
                let mut kvs: Vec<String> = Vec::new();
                let mut w: usize = 0;
                while w < parts.len()
                    invariant
                        0 <= w <= parts@.len(),
                        kvs@.map_values(|s: String| s@) == parts@.map_values(
                            |p: Vec<char>| p@,
                        ).take(w as int),
                    decreases parts@.len() - w,
                {
                    let ghost kvs0 = kvs@;
                    kvs.push(string_of(&parts[w]));
                    w = w + 1;
                    proof {
                        let m0 = kvs0.map_values(|s: String| s@);
                        let m1 = kvs@.map_values(|s: String| s@);
                        let m2 = parts@.map_values(|p: Vec<char>| p@).take(w as int);
                        assert(m0.len() == kvs0.len());
                        assert(kvs0.len() == w - 1);
                        assert(kvs@.len() == w as int);
                        assert(m1.len() == w as int);
                        assert forall|q: int| 0 <= q < w implies m1[q] == m2[q] by {
                            assert(m1[q] == kvs@[q]@);
                            if q < w - 1 {
                                assert(kvs@[q] == kvs0[q]);
                                assert(m0[q] == kvs0[q]@);
                                assert(m0[q] == parts@.map_values(|p: Vec<char>| p@)[q]);
                            } else {
                                assert(kvs@[q]@ == parts@[q]@);
                            }
                            assert(m2[q] == parts@.map_values(|p: Vec<char>| p@)[q]);
                            assert(parts@.map_values(|p: Vec<char>| p@)[q] == parts@[q]@);
                        }
                        assert(m1 =~= m2);
                    }
                }
                proof {
                    assert(parts@.map_values(|p: Vec<char>| p@).take(parts@.len() as int)
                        =~= parts@.map_values(|p: Vec<char>| p@));
                }
                let mut kvs = kvs;
                match_query_segments(qs_regexes, &mut kvs)
            },
        };
        qs_ok && self.path.is_match(escaping::coalesce_chars(path, '/').as_str())
    }

    /// Whether the rule matches a combined path-and-query string.
    pub fn matches_path_with_qs(&self, path_qs: &str) -> (r: bool)
        ensures
            r == rule_matches_path_with_qs(self@, path_qs@),
    {
        let (path, qs) = escaping::split_path_n_qs(path_qs);
        self.matches_path_n_qs(path, qs)
    }

    /// The rule's method.
    pub fn method(&self) -> (r: &Method)
        ensures
            *r == self@.method,
    {
        &self.method
    }

    /// The reconstructed, human-readable form of the path and query pattern;
    /// placeholder positions survive, placeholder names do not.
    #[verifier::rlimit(50)]
    pub fn pattern(&self) -> (r: String)
        ensures
            r@ == reconstructed(self@),
    {
        let pv = chars_of(self.path.as_str());
        let class = chars_of(escaping::PATH_VALUE_REGEX_S);
        let marker = chars_of("{_}");
        let repl = replace_vec(&pv, &class, &marker);
        let mut out: Vec<char> = if repl.len() >= 2 {
            subvec(&repl, 2, repl.len())
        } else {
            Vec::new()
        };
        proof {
            if repl@.len() >= 2 {
                assert(repl@.subrange(2, repl@.len() as int) =~= repl@.skip(2));
            }
            assert(out@ == drop_anchor(replaced(self@.path, path_class(), "{_}"@)));
        }
        match &self.qs {
            None => string_of(&out),
            Some(qs) => {
                if qs.len() == 0 {
                    string_of(&out)
                } else {
                    let ghost base = out@;
                    let ghost mapped = self@.qs->Some_0.map_values(
                        |kv: Seq<char>| drop_anchor(replaced(kv, qs_class(), "{_}"@)),
                    );
                    let qclass = chars_of(escaping::QS_VALUE_REGEX_S);
                    out.push('?');
                    let piece = reconstruct_kv(&qs[0], &qclass, &marker);
                    push_all(&piece, &mut out);
                    proof {
                        assert(out@ =~= base + seq!['?'] + crate::util::chars::join_with(
                            mapped.take(1),
                            seq!['&'],
                        ));
                    }
                    let mut k: usize = 1;
                    while k < qs.len()
                        invariant
                            1 <= k <= qs@.len(),
                            self@.qs matches Some(qv2) && qv2 == qs@.map_values(
                                |p: CompiledPattern| p@,
                            ),
                            mapped == self@.qs->Some_0.map_values(
                                |kv: Seq<char>| drop_anchor(replaced(kv, qs_class(), "{_}"@)),
                            ),
                            qclass@ == qs_class(),
                            marker@ == "{_}"@,
                            out@ == base + seq!['?'] + crate::util::chars::join_with(
                                mapped.take(k as int),
                                seq!['&'],
                            ),
                        decreases qs@.len() - k,
                    {
                        out.push('&');
                        let piece = reconstruct_kv(&qs[k], &qclass, &marker);
                        push_all(&piece, &mut out);
                        k = k + 1;
                        proof {
                            assert(mapped.take(k as int).drop_last() =~= mapped.take(k - 1));
                            assert(mapped.take(k as int).last() == mapped[k - 1]);
                            assert(out@ =~= base + seq!['?']
                                + crate::util::chars::join_with(
                                mapped.take(k - 1),
                                seq!['&'],
                            ) + seq!['&'] + mapped[k - 1]);
                        }
                    }
                    proof {
                        assert(mapped.take(mapped.len() as int) =~= mapped);
                    }
                    string_of(&out)
                }
            },
        }
    }
}

/// One query pattern text with its anchor dropped and its placeholder class
/// replaced by the generic marker.
fn reconstruct_kv(kv: &CompiledPattern, qclass: &Vec<char>, marker: &Vec<char>) -> (out: Vec<
    char,
>)
    ensures
        out@ == drop_anchor(replaced(kv@, qclass@, marker@)),
{
    let kvc = chars_of(kv.as_str());
    let repl = replace_vec(&kvc, qclass, marker);
    if repl.len() >= 2 {
        let out = subvec(&repl, 2, repl.len());
        proof {
            assert(repl@.subrange(2, repl@.len() as int) =~= repl@.skip(2));
        }
        out
    } else {
        Vec::new()
    }
}

/// The first candidate segment, in order, that the pattern matches.
fn find_first_matching(p: &CompiledPattern, kvs: &Vec<String>) -> (r: Option<usize>)
    ensures
        match r {
            Some(i) => first_match_idx(p@, kvs@.map_values(|s: String| s@)) == Some(i as int) && i
                < kvs@.len(),
            None => first_match_idx(p@, kvs@.map_values(|s: String| s@)) is None,
        },
{
    let ghost segs = kvs@.map_values(|s: String| s@);
    let mut idx: usize = 0;
    while idx < kvs.len()
        invariant
            0 <= idx <= kvs@.len(),
            segs == kvs@.map_values(|s: String| s@),
            forall|q: int| 0 <= q < idx ==> !regex_accepts(p@, segs[q]),
        decreases kvs@.len() - idx,
    {
        if p.is_match(kvs[idx].as_str()) {
            proof {
                lemma_first_match_idx_is(p@, segs, idx as int);
            }
            return Some(idx);
        }
        idx = idx + 1;
    }
    proof {
        lemma_first_match_idx_none(p@, segs);
    }
    None
}

/// Runs the greedy consume-once algorithm of the rule's query patterns over
/// the candidate segments.
fn match_query_segments(qs_regexes: &Vec<CompiledPattern>, pool: &mut Vec<String>) -> (r: bool)
    ensures
        r == greedy_qs_match(
            qs_regexes@.map_values(|p: CompiledPattern| p@),
            old(pool)@.map_values(|s: String| s@),
        ),
{
    let ghost all_ps = qs_regexes@.map_values(|p: CompiledPattern| p@);
    let ghost orig_segs = old(pool)@.map_values(|s: String| s@);
    let mut t: usize = 0;
    proof {
        assert(all_ps.skip(0) =~= all_ps);
    }
    while t < qs_regexes.len()
        invariant
            0 <= t <= qs_regexes@.len(),
            all_ps == qs_regexes@.map_values(|p: CompiledPattern| p@),
            orig_segs == old(pool)@.map_values(|s: String| s@),
            greedy_qs_match(all_ps, orig_segs) == greedy_qs_match(
                all_ps.skip(t as int),
                pool@.map_values(|s: String| s@),
            ),
        decreases qs_regexes@.len() - t,
    {
        let ghost segs = pool@.map_values(|s: String| s@);
        proof {
            assert(all_ps.skip(t as int)[0] == all_ps[t as int]);
        }
        match find_first_matching(&qs_regexes[t], &pool) {
            None => {
                proof {
                    assert(all_ps[t as int] == qs_regexes@[t as int]@);
                    assert(first_match_idx(all_ps.skip(t as int)[0], segs) is None);
                    assert(!greedy_qs_match(all_ps.skip(t as int), segs));
                }
                return false;
            },
            Some(idx) => {
                let ghost pool0 = pool@;
                pool.remove(idx);
                t = t + 1;
                proof {
                    assert(all_ps[t - 1] == qs_regexes@[t - 1]@);
                    assert(first_match_idx(all_ps.skip(t - 1)[0], segs) == Some(idx as int));
                    assert(all_ps.skip(t - 1).drop_first() =~= all_ps.skip(t as int));
                    let m1 = pool@.map_values(|s: String| s@);
                    let m2 = segs.remove(idx as int);
                    assert(pool@ == pool0.remove(idx as int));
                    assert(segs.len() == pool0.len());
                    assert(m1.len() == pool@.len());
                    assert forall|q: int| 0 <= q < m1.len() implies m1[q] == m2[q] by {
                        assert(m1[q] == pool@[q]@);
                        if q < idx {
                            assert(pool@[q] == pool0[q]);
                            assert(segs[q] == pool0[q]@);
                        } else {
                            assert(pool@[q] == pool0[q + 1]);
                            assert(segs[q + 1] == pool0[q + 1]@);
                        }
                    }
                    assert(m1 =~= m2);
                }
            },
        }
    }
    proof {
        assert(all_ps.skip(all_ps.len() as int) =~= Seq::<Seq<char>>::empty());
    }
    true
}

} // verus!
