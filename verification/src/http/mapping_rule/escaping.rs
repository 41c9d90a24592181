use vstd::prelude::*;

use crate::util::chars::{
    chars_of, coalesce_vec, coalesced, find_from, join_with, split_chars, split_on_char, string_of,
    subvec,
};

verus! {

/// Failure modes of pattern compilation.
#[derive(Debug, Clone, PartialEq, Eq)]
pub enum Error {
    /// The expanded text did not compile as a regular expression; the payload
    /// is the regex engine's rendering of the fault.
    RegexError(String),
    /// The capacity required for the expanded pattern overflowed.
    RegexTooBig,
}

// Character class accepted for a placeholder in a path rule.
pub const PATH_VALUE_REGEX_S: &'static str = "[0-9a-zA-Z_\\-.~%!$&'()*+,;=@:]+";

// Same for query strings, but this one excludes the ampersand separator.
pub const QS_VALUE_REGEX_S: &'static str = "[0-9a-zA-Z_\\-.~%!$'()*+,;=@:]+";

// Implicit anchor to the start of the subject used in these expressions.
pub const START_RE: &'static str = "\\A";

pub open spec fn path_class() -> Seq<char> {
    PATH_VALUE_REGEX_S@
}

pub open spec fn qs_class() -> Seq<char> {
    QS_VALUE_REGEX_S@
}

pub open spec fn start_anchor() -> Seq<char> {
    START_RE@
}

// ---- the compiled regular expression, held behind a verified facade ----

#[verifier::external_type_specification]
#[verifier::external_body]
pub struct ExRegex(regex::Regex);

/// What the regex engine answers for a given pattern text and subject: a pure
/// function of the two, the same in every process.
pub uninterp spec fn regex_accepts(pattern: Seq<char>, text: Seq<char>) -> bool;

/// Whether the engine takes the given text as a pattern at all: the outcome
/// of compiling it, a pure function of the pattern text.
pub uninterp spec fn regex_compiles(pattern: Seq<char>) -> bool;

/// A compiled pattern together with the exact text it was compiled from.
///
/// The fields stay private to this module: every value is built by `compile`,
/// so the matcher always belongs to the pattern text that `view` reports.
#[derive(Debug)]
pub struct CompiledPattern {
    source: String,
    re: regex::Regex,
}

impl View for CompiledPattern {
    type V = Seq<char>;

    closed spec fn view(&self) -> Seq<char> {
        self.source@
    }
}

impl CompiledPattern {
    /// Relies on regex::Regex::new: whether it compiles is a function of the
    /// pattern text alone, and on success the returned matcher is compiled
    /// from exactly the text given, which is stored beside it.
    #[verifier::external_body]
    fn compile(source: String) -> (r: Result<CompiledPattern, Error>)
        ensures
            r is Ok <==> regex_compiles(source@),
            r matches Ok(p) ==> p@ == source@,
            r matches Err(e) ==> e is RegexError,
    {
        match regex::Regex::new(source.as_str()) {
            Ok(re) => Ok(CompiledPattern { source, re }),
            Err(e) => Err(Error::RegexError(e.to_string())),
        }
    }

    /// Relies on regex::Regex::is_match: whether the pattern matches anywhere
    /// in `text`, a function of the pattern text and the subject alone.
    #[verifier::external_body]
    pub fn is_match(&self, text: &str) -> (r: bool)
        ensures
            r == regex_accepts(self@, text@),
    {
        self.re.is_match(text)
    }

    /// The pattern text this matcher was compiled from.
    pub fn as_str(&self) -> (r: &str)
        ensures
            r@ == self@,
    {
        self.source.as_str()
    }
}

impl Clone for CompiledPattern {
    /// Relies on regex::Regex::clone and String::clone keeping their values.
    #[verifier::external_body]
    fn clone(&self) -> (r: Self)
        ensures
            r@ == self@,
    {
        CompiledPattern { source: self.source.clone(), re: self.re.clone() }
    }
}

// ---- placeholder spans ----
//
// A placeholder is what the lazy pattern `\{.+?\}` finds: an opening brace, at
// least one character that is not a line feed, and the nearest closing brace.

/// `s[i..=j]` is a placeholder span: `s[j]` is the first closing brace that
/// leaves at least one character of content, none of which is a line feed.
pub open spec fn placeholder_at(s: Seq<char>, i: int, j: int) -> bool {
    &&& 0 <= i
    &&& i + 2 <= j < s.len()
    &&& s[i] == '{'
    &&& s[j] == '}'
    &&& (forall|k: int| i < k < j ==> s[k] != '\n')
    &&& (forall|k: int| i + 2 <= k < j ==> s[k] != '}')
}

pub open spec fn has_match_at(s: Seq<char>, i: int) -> bool {
    exists|j: int| placeholder_at(s, i, j)
}

/// The end of a placeholder span starting at a given position is unique.
pub proof fn lemma_placeholder_unique(s: Seq<char>, i: int, j1: int, j2: int)
    requires
        placeholder_at(s, i, j1),
        placeholder_at(s, i, j2),
    ensures
        j1 == j2,
{
    if j1 < j2 {
        assert(s[j1] != '}');
    } else if j2 < j1 {
        assert(s[j2] != '}');
    }
}

/// The leftmost placeholder span starting at or after `p`.
pub open spec fn find_ph(s: Seq<char>, p: int) -> Option<(int, int)>
    decreases s.len() - p,
{
    if p < 0 || p >= s.len() {
        None
    } else if has_match_at(s, p) {
        Some((p, choose|j: int| placeholder_at(s, p, j)))
    } else {
        find_ph(s, p + 1)
    }
}

pub proof fn lemma_find_ph(s: Seq<char>, p: int)
    requires
        0 <= p,
    ensures
        match find_ph(s, p) {
            Some(ij) => p <= ij.0 && placeholder_at(s, ij.0, ij.1) && (forall|q: int|
                p <= q < ij.0 ==> !has_match_at(s, q)),
            None => forall|q: int| p <= q < s.len() ==> !has_match_at(s, q),
        },
    decreases s.len() - p,
{
    if p < s.len() {
        if has_match_at(s, p) {
            let j = choose|j: int| placeholder_at(s, p, j);
            assert(placeholder_at(s, p, j));
        } else {
            lemma_find_ph(s, p + 1);
        }
    }
}

// ---- splitting a template on its placeholders ----

/// The literal fragments of `s` from position `p` on, the placeholder spans
/// removed: one fragment more than there are placeholders.
pub open spec fn split_ph_from(s: Seq<char>, p: int) -> Seq<Seq<char>>
    decreases s.len() - p,
    via split_ph_from_dec
{
    if p < 0 || p > s.len() {
        Seq::empty()
    } else {
        match find_ph(s, p) {
            None => seq![s.subrange(p, s.len() as int)],
            Some(ij) => seq![s.subrange(p, ij.0)] + split_ph_from(s, ij.1 + 1),
        }
    }
}

#[via_fn]
proof fn split_ph_from_dec(s: Seq<char>, p: int) {
    if 0 <= p <= s.len() {
        lemma_find_ph(s, p);
    }
}

/// The literal fragments of a whole template.
pub open spec fn split_ph(s: Seq<char>) -> Seq<Seq<char>> {
    split_ph_from(s, 0)
}

// ---- escaping of query-string literals ----

/// The characters the regex engine treats as significant and escapes.
pub open spec fn is_meta_char(c: char) -> bool {
    c == '\\' || c == '.' || c == '+' || c == '*' || c == '?' || c == '(' || c == ')' || c == '|'
        || c == '[' || c == ']' || c == '{' || c == '}' || c == '^' || c == '$' || c == '#' || c
        == '&' || c == '-' || c == '~'
}

/// A query literal with every meta character backslash-escaped, except that
/// the ampersand is kept raw: it separates segments and must survive the later
/// split of the merged pattern.
pub open spec fn qs_escaped(s: Seq<char>) -> Seq<char>
    decreases s.len(),
{
    if s.len() == 0 {
        Seq::empty()
    } else {
        let r = qs_escaped(s.drop_last());
        let c = s.last();
        if c == '&' {
            r.push('&')
        } else if is_meta_char(c) {
            r.push('\\').push(c)
        } else {
            r.push(c)
        }
    }
}

// ---- the compiled shapes of the two template kinds ----

/// The path pattern before anchoring: the coalesced template's literal
/// fragments, inserted raw, with the placeholder class between them.
pub open spec fn path_literal(s: Seq<char>) -> Seq<char> {
    join_with(split_ph(coalesced(s, '/')), path_class())
}

/// The full anchored path pattern.
pub open spec fn path_pattern(s: Seq<char>) -> Seq<char> {
    start_anchor() + path_literal(s)
}

/// The merged query pattern: escaped literal fragments with the query
/// placeholder class between them.
pub open spec fn qs_merged(s: Seq<char>) -> Seq<char> {
    join_with(split_ph(s).map_values(|l: Seq<char>| qs_escaped(l)), qs_class())
}

/// The per-segment query patterns: the merged pattern split on ampersands,
/// each segment anchored at the start.
pub open spec fn qs_pattern_list(s: Seq<char>) -> Seq<Seq<char>> {
    split_on_char(qs_merged(s), '&').map_values(|kv: Seq<char>| start_anchor() + kv)
}

/// When a path template compiles: the expanded pattern fits and the engine
/// takes it.
pub open spec fn path_template_ok(p: Seq<char>) -> bool {
    path_literal(p).len() + 2 <= usize::MAX && regex_compiles(path_pattern(p))
}

/// When a query template compiles: the engine takes every segment pattern.
pub open spec fn qs_template_ok(q: Seq<char>) -> bool {
    forall|i: int|
        0 <= i < qs_pattern_list(q).len() ==> regex_compiles(#[trigger] qs_pattern_list(q)[i])
}

// ---- exec: placeholder scanning ----

/// Looks for the closing brace of a placeholder opened at `p`.
fn scan_close(v: &Vec<char>, p: usize) -> (r: Option<usize>)
    requires
        p < v@.len(),
        v@[p as int] == '{',
    ensures
        match r {
            Some(j) => placeholder_at(v@, p as int, j as int) && p + 2 <= j < v@.len(),
            None => !has_match_at(v@, p as int),
        },
{
    let n = v.len();
    let mut k = p + 1;
    while k < n
        invariant
            p + 1 <= k <= n,
            n == v@.len(),
            p < n,
            v@[p as int] == '{',
            forall|q: int| p < q < k ==> v@[q] != '\n',
            forall|q: int| p + 2 <= q < k ==> v@[q] != '}',
        decreases n - k,
    {
        let c = v[k];
        if c == '\n' {
            proof {
                assert forall|j: int| !placeholder_at(v@, p as int, j) by {
                    if placeholder_at(v@, p as int, j) {
                        if j <= k as int {
                            assert(v@[j] == '}');
                        } else {
                            assert(v@[k as int] != '\n');
                        }
                    }
                }
            }
            return None;
        }
        if k >= p + 2 && c == '}' {
            return Some(k);
        }
        k = k + 1;
    }
    proof {
        assert forall|j: int| !placeholder_at(v@, p as int, j) by {
            if placeholder_at(v@, p as int, j) {
                assert(v@[j] == '}');
            }
        }
    }
    None
}

/// The leftmost placeholder span at or after `from`.
fn find_placeholder(v: &Vec<char>, from: usize) -> (r: Option<(usize, usize)>)
    ensures
        match r {
            Some(ij) => find_ph(v@, from as int) == Some((ij.0 as int, ij.1 as int)) && from
                <= ij.0 && ij.0 + 2 <= ij.1 < v@.len(),
            None => find_ph(v@, from as int) is None,
        },
{
    let n = v.len();
    let mut p = from;
    if from >= n {
        return None;
    }
    while p < n
        invariant
            from <= p <= n,
            n == v@.len(),
            find_ph(v@, from as int) == find_ph(v@, p as int),
        decreases n - p,
    {
        if v[p] == '{' {
            match scan_close(v, p) {
                Some(j) => {
                    proof {
                        assert(has_match_at(v@, p as int));
                        let jj = choose|x: int| placeholder_at(v@, p as int, x);
                        lemma_placeholder_unique(v@, p as int, jj, j as int);
                    }
                    return Some((p, j));
                },
                None => {
                    p = p + 1;
                },
            }
        } else {
            proof {
                assert forall|j: int| !placeholder_at(v@, p as int, j) by {}
            }
            p = p + 1;
        }
    }
    None
}

/// The literal fragments of a template, the placeholder spans removed.
fn split_placeholders(v: &Vec<char>) -> (frags: Vec<Vec<char>>)
    ensures
        frags@.map_values(|f: Vec<char>| f@) == split_ph(v@),
        frags@.len() >= 1,
{
    let n = v.len();
    let mut frags: Vec<Vec<char>> = Vec::new();
    let mut p: usize = 0;
    proof {
        assert(frags@.map_values(|f: Vec<char>| f@) + split_ph_from(v@, 0) =~= split_ph_from(
            v@,
            0,
        ));
    }
    loop
        invariant
            n == v@.len(),
            0 <= p <= n,
            split_ph(v@) == frags@.map_values(|f: Vec<char>| f@) + split_ph_from(v@, p as int),
        decreases v@.len() - p,
    {
        let ghost prev = frags@.map_values(|f: Vec<char>| f@);
        match find_placeholder(v, p) {
            None => {
                frags.push(subvec(v, p, v.len()));
                proof {
                    assert(frags@.map_values(|f: Vec<char>| f@) =~= prev.push(
                        v@.subrange(p as int, v@.len() as int),
                    ));
                    assert(split_ph_from(v@, p as int) =~= seq![
                        v@.subrange(p as int, v@.len() as int),
                    ]);
                    assert(prev.push(v@.subrange(p as int, v@.len() as int)) =~= prev + seq![
                        v@.subrange(p as int, v@.len() as int),
                    ]);
                }
                return frags;
            },
            Some((i, j)) => {
                frags.push(subvec(v, p, i));
                proof {
                    assert(frags@.map_values(|f: Vec<char>| f@) =~= prev.push(
                        v@.subrange(p as int, i as int),
                    ));
                    assert(split_ph_from(v@, p as int) == seq![v@.subrange(p as int, i as int)]
                        + split_ph_from(v@, j + 1));
                    assert(prev.push(v@.subrange(p as int, i as int)) + split_ph_from(v@, j + 1)
                        =~= prev + split_ph_from(v@, p as int));
                }
                p = j + 1;
            },
        }
    }
}

// ---- exec: building the pattern texts ----

/// Appends the query-escaped form of `frag` to `out`.
fn push_qs_escaped(frag: &Vec<char>, out: &mut Vec<char>)
    ensures
        final(out)@ == old(out)@ + qs_escaped(frag@),
{
    let mut i: usize = 0;
    proof {
        assert(out@ =~= out@ + qs_escaped(frag@.take(0)));
    }
    while i < frag.len()
        invariant
            0 <= i <= frag@.len(),
            out@ == old(out)@ + qs_escaped(frag@.take(i as int)),
        decreases frag@.len() - i,
    {
        let c = frag[i];
        if c == '&' {
            out.push('&');
        } else if c == '\\' || c == '.' || c == '+' || c == '*' || c == '?' || c == '(' || c == ')'
            || c == '|' || c == '[' || c == ']' || c == '{' || c == '}' || c == '^' || c == '$'
            || c == '#' || c == '&' || c == '-' || c == '~' {
            out.push('\\');
            out.push(c);
        } else {
            out.push(c);
        }
        i = i + 1;
        proof {
            assert(frag@.take(i as int).drop_last() =~= frag@.take(i - 1));
            assert(frag@.take(i as int).last() == frag@[i - 1]);
        }
    }
    proof {
        assert(frag@.take(frag@.len() as int) =~= frag@);
    }
}

// ---- the public compiler entry points ----

/// Compiles a query-string template into one anchored pattern per segment.
pub fn query_string_regex(s: &str) -> (r: Result<Vec<CompiledPattern>, Error>)
    ensures
        r is Ok <==> qs_template_ok(s@),
        r matches Ok(ps) ==> ps@.map_values(|p: CompiledPattern| p@) == qs_pattern_list(s@),
        r matches Err(e) ==> e is RegexError,
{
    let v = chars_of(s);
    let frags = split_placeholders(&v);
    let ghost mapped = split_ph(v@).map_values(|l: Seq<char>| qs_escaped(l));
    let class = chars_of(QS_VALUE_REGEX_S);

    let mut merged: Vec<char> = Vec::new();
    push_qs_escaped(&frags[0], &mut merged);
    proof {
        assert(merged@ =~= join_with(mapped.take(1), qs_class()));
    }
    let mut k: usize = 1;
    while k < frags.len()
        invariant
            1 <= k <= frags@.len(),
            frags@.map_values(|f: Vec<char>| f@) == split_ph(v@),
            mapped == split_ph(v@).map_values(|l: Seq<char>| qs_escaped(l)),
            class@ == qs_class(),
            merged@ == join_with(mapped.take(k as int), qs_class()),
        decreases frags@.len() - k,
    {
        crate::util::chars::push_all(&class, &mut merged);
        push_qs_escaped(&frags[k], &mut merged);
        k = k + 1;
        proof {
            assert(mapped.take(k as int).drop_last() =~= mapped.take(k - 1));
            assert(mapped.take(k as int).last() == qs_escaped(frags@.map_values(
                |f: Vec<char>| f@,
            )[k - 1]));
        }
    }
    proof {
        assert(mapped.take(mapped.len() as int) =~= mapped);
        assert(merged@ == qs_merged(s@));
    }

    let segments = split_chars(&merged, '&');
    let mut out: Vec<CompiledPattern> = Vec::new();
    let ghost segviews = split_on_char(merged@, '&');
    let ghost plist = qs_pattern_list(s@);
    proof {
        assert(plist == segviews.map_values(|kv: Seq<char>| start_anchor() + kv));
    }
    let mut t: usize = 0;
    while t < segments.len()
        invariant
            0 <= t <= segments@.len(),
            segments@.map_values(|p: Vec<char>| p@) == segviews,
            merged@ == qs_merged(s@),
            segviews == split_on_char(qs_merged(s@), '&'),
            plist == qs_pattern_list(s@),
            plist == segviews.map_values(|kv: Seq<char>| start_anchor() + kv),
            out@.map_values(|p: CompiledPattern| p@) == segviews.take(t as int).map_values(
                |kv: Seq<char>| start_anchor() + kv,
            ),
            forall|q: int| 0 <= q < t ==> regex_compiles(#[trigger] plist[q]),
        decreases segments@.len() - t,
    {
        let ghost prevout = out@.map_values(|p: CompiledPattern| p@);
        let mut kv: Vec<char> = chars_of(START_RE);
        crate::util::chars::push_all(&segments[t], &mut kv);
        proof {
            assert(kv@ == plist[t as int]);
        }
        let compiled = match CompiledPattern::compile(string_of(&kv)) {
            Ok(p) => p,
            Err(e) => {
                proof {
                    assert(!regex_compiles(plist[t as int]));
                    assert(!qs_template_ok(s@));
                }
                return Err(e);
            },
        };
        out.push(compiled);
        t = t + 1;
        proof {
            assert(regex_compiles(plist[t - 1]));
            assert(out@.map_values(|p: CompiledPattern| p@) =~= prevout.push(
                start_anchor() + segviews[t - 1],
            ));
            assert(segviews.take(t as int).map_values(|kv: Seq<char>| start_anchor() + kv)
                =~= segviews.take(t - 1).map_values(|kv: Seq<char>| start_anchor() + kv).push(
                start_anchor() + segviews[t - 1],
            ));
        }
    }
    proof {
        assert(segviews.take(segviews.len() as int) =~= segviews);
        assert(out@.map_values(|p: CompiledPattern| p@) =~= qs_pattern_list(s@));
        assert(qs_template_ok(s@));
    }
    Ok(out)
}

/// Compiles a path template into one anchored pattern.
///
/// Duplicate slashes are coalesced first, literal fragments are inserted raw
/// so that a trailing `$` keeps its exact-match meaning, and each placeholder
/// expands to the permissive path character class.
pub fn path_regex(path: &str) -> (r: Result<CompiledPattern, Error>)
    ensures
        r is Ok <==> path_template_ok(path@),
        r matches Ok(p) ==> p@ == path_pattern(path@),
        r == Err::<CompiledPattern, Error>(Error::RegexTooBig) <==> path_literal(path@).len() + 2
            > usize::MAX,
        r matches Err(e) ==> e is RegexError || e is RegexTooBig,
{
    let v = chars_of(path);
    let co = coalesce_vec(&v, '/');
    let frags = split_placeholders(&co);
    let ghost lits = split_ph(co@);
    let class = chars_of(PATH_VALUE_REGEX_S);

    let mut lit: Vec<char> = Vec::new();
    crate::util::chars::push_all(&frags[0], &mut lit);
    proof {
        assert(lit@ =~= join_with(lits.take(1), path_class()));
    }
    let mut k: usize = 1;
    while k < frags.len()
        invariant
            1 <= k <= frags@.len(),
            frags@.map_values(|f: Vec<char>| f@) == lits,
            lits == split_ph(co@),
            class@ == path_class(),
            lit@ == join_with(lits.take(k as int), path_class()),
        decreases frags@.len() - k,
    {
        crate::util::chars::push_all(&class, &mut lit);
        crate::util::chars::push_all(&frags[k], &mut lit);
        k = k + 1;
        proof {
            assert(lits.take(k as int).drop_last() =~= lits.take(k - 1));
            assert(lits.take(k as int).last() == lits[k - 1]);
        }
    }
    proof {
        assert(lits.take(lits.len() as int) =~= lits);
        assert(lit@ == path_literal(path@));
    }

    if lit.len() > usize::MAX - 2 {
        proof {
            assert(!path_template_ok(path@));
        }
        return Err(Error::RegexTooBig);
    }
    let mut full: Vec<char> = chars_of(START_RE);
    crate::util::chars::push_all(&lit, &mut full);
    proof {
        assert(full@ == path_pattern(path@));
    }
    match CompiledPattern::compile(string_of(&full)) {
        Ok(p) => {
            proof {
                assert(path_template_ok(path@));
            }
            Ok(p)
        },
        Err(e) => {
            proof {
                assert(!path_template_ok(path@));
            }
            Err(e)
        },
    }
}

/// Splits a combined path and query string on the first question mark.
pub fn split_path_n_qs(s: &str) -> (r: (&str, Option<&str>))
    ensures
        match find_from(s@, '?', 0) {
            None => r.0@ == s@ && r.1 is None,
            Some(i) => r.0@ == s@.take(i) && (r.1 matches Some(q) && q@ == s@.skip(i + 1)),
        },
{
    let n = s.unicode_len();
    let v = chars_of(s);
    match crate::util::chars::find_char(&v, '?', 0) {
        None => (s, None),
        Some(i) => {
            proof {
                crate::util::chars::lemma_find_from_bounds(s@, '?', 0);
                assert(s@.subrange(0, i as int) =~= s@.take(i as int));
                assert(s@.subrange(i + 1, s@.len() as int) =~= s@.skip(i + 1));
            }
            (s.substring_char(0, i), Some(s.substring_char(i + 1, n)))
        },
    }
}

/// Collapses runs of a repeated character to a single occurrence.
pub fn coalesce_chars(s: &str, coalescing_char: char) -> (r: String)
    ensures
        r@ == coalesced(s@, coalescing_char),
{
    let v = chars_of(s);
    let out = coalesce_vec(&v, coalescing_char);
    string_of(&out)
}

} // verus!
