use vstd::prelude::*;

verus! {

// Character-sequence helpers shared by the whole crate. Exec code works on
// `Vec<char>` so that every algorithm is stated and proved over `Seq<char>`,
// the view of both `str` and `String`.

// Relies on String::push: it appends the given character.
pub assume_specification[ String::push ](s: &mut String, c: char)
    ensures
        final(s)@ == old(s)@.push(c),
;

/// Collects the characters of a string slice into a vector.
pub fn chars_of(s: &str) -> (v: Vec<char>)
    ensures
        v@ == s@,
{
    let n = s.unicode_len();
    let mut v: Vec<char> = Vec::new();
    let mut i: usize = 0;
    while i < n
        invariant
            n == s@.len(),
            0 <= i <= n,
            v@ == s@.take(i as int),
        decreases n - i,
    {
        v.push(s.get_char(i));
        i = i + 1;
        proof {
            assert(s@.take(i as int) =~= s@.take(i - 1).push(s@[i - 1]));
        }
    }
    proof {
        assert(s@.take(n as int) =~= s@);
    }
    v
}

/// Builds an owned string from a vector of characters.
pub fn string_of(v: &Vec<char>) -> (s: String)
    ensures
        s@ == v@,
{
    let mut s = String::new();
    let mut i: usize = 0;
    while i < v.len()
        invariant
            0 <= i <= v@.len(),
            s@ == v@.take(i as int),
        decreases v@.len() - i,
    {
        s.push(v[i]);
        i = i + 1;
        proof {
            assert(v@.take(i as int) =~= v@.take(i - 1).push(v@[i - 1]));
        }
    }
    proof {
        assert(v@.take(v@.len() as int) =~= v@);
    }
    s
}

/// Whether two string slices hold the same characters.
pub fn str_eq(a: &str, b: &str) -> (r: bool)
    ensures
        r == (a@ == b@),
{
    let an = a.unicode_len();
    let bn = b.unicode_len();
    if an != bn {
        proof {
            assert(a@ != b@) by {
                assert(a@.len() != b@.len());
            }
        }
        return false;
    }
    let mut i: usize = 0;
    while i < an
        invariant
            an == a@.len(),
            an == b@.len(),
            0 <= i <= an,
            forall|k: int| 0 <= k < i ==> a@[k] == b@[k],
        decreases an - i,
    {
        if a.get_char(i) != b.get_char(i) {
            return false;
        }
        i = i + 1;
    }
    proof {
        assert(a@ =~= b@);
    }
    true
}

// ---- splitting on a separator character ----

/// The segments of `s` delimited by `c`: always one more segment than there
/// are separators, so the empty sequence splits into one empty segment.
pub open spec fn split_on_char(s: Seq<char>, c: char) -> Seq<Seq<char>>
    decreases s.len(),
{
    if s.len() == 0 {
        seq![Seq::<char>::empty()]
    } else {
        let parts = split_on_char(s.drop_last(), c);
        if s.last() == c {
            parts.push(Seq::<char>::empty())
        } else {
            parts.update(parts.len() - 1, parts.last().push(s.last()))
        }
    }
}

pub proof fn lemma_split_on_char_len(s: Seq<char>, c: char)
    ensures
        split_on_char(s, c).len() >= 1,
    decreases s.len(),
{
    if s.len() > 0 {
        lemma_split_on_char_len(s.drop_last(), c);
    }
}

/// Splits the characters of `v` on the separator `c`.
pub fn split_chars(v: &Vec<char>, c: char) -> (parts: Vec<Vec<char>>)
    ensures
        parts@.map_values(|p: Vec<char>| p@) == split_on_char(v@, c),
        parts@.len() >= 1,
{
    let mut parts: Vec<Vec<char>> = Vec::new();
    parts.push(Vec::new());
    proof {
        assert(parts@.map_values(|p: Vec<char>| p@) =~= split_on_char(v@.take(0), c));
    }
    let mut i: usize = 0;
    while i < v.len()
        invariant
            0 <= i <= v@.len(),
            parts@.len() >= 1,
            parts@.map_values(|p: Vec<char>| p@) == split_on_char(v@.take(i as int), c),
        decreases v@.len() - i,
    {
        let ghost prev = parts@.map_values(|p: Vec<char>| p@);
        proof {
            lemma_split_on_char_len(v@.take(i as int), c);
        }
        if v[i] == c {
            parts.push(Vec::new());
        } else {
            let last = parts.len() - 1;
            let ch = v[i];
            let mut seg = parts.remove(last);
            seg.push(ch);
            parts.push(seg);
            proof {
                assert(parts@.map_values(|p: Vec<char>| p@) =~= prev.update(
                    prev.len() - 1,
                    prev.last().push(ch),
                ));
            }
        }
        i = i + 1;
        proof {
            assert(v@.take(i as int).drop_last() =~= v@.take(i - 1));
            assert(v@.take(i as int).last() == v@[i - 1]);
            if v@[i - 1] == c {
                assert(parts@.map_values(|p: Vec<char>| p@) =~= split_on_char(
                    v@.take(i as int),
                    c,
                ));
            } else {
                assert(parts@.map_values(|p: Vec<char>| p@) =~= split_on_char(
                    v@.take(i as int),
                    c,
                ));
            }
        }
    }
    proof {
        assert(v@.take(v@.len() as int) =~= v@);
    }
    parts
}

// ---- searching ----

/// The first index at or after `from` holding `c`.
pub open spec fn find_from(s: Seq<char>, c: char, from: int) -> Option<int>
    decreases s.len() - from,
{
    if from < 0 || from >= s.len() {
        None
    } else if s[from] == c {
        Some(from)
    } else {
        find_from(s, c, from + 1)
    }
}

pub proof fn lemma_find_from_bounds(s: Seq<char>, c: char, from: int)
    requires
        0 <= from,
    ensures
        match find_from(s, c, from) {
            Some(i) => from <= i < s.len() && s[i] == c && forall|k: int|
                from <= k < i ==> s[k] != c,
            None => forall|k: int| from <= k < s.len() ==> s[k] != c,
        },
    decreases s.len() - from,
{
    if 0 <= from < s.len() && s[from] != c {
        lemma_find_from_bounds(s, c, from + 1);
    }
}

/// The first occurrence of `c` in `v` at or after `from`.
pub fn find_char(v: &Vec<char>, c: char, from: usize) -> (r: Option<usize>)
    ensures
        match r {
            Some(i) => find_from(v@, c, from as int) == Some(i as int) && from <= i < v@.len(),
            None => find_from(v@, c, from as int) is None,
        },
{
    if from >= v.len() {
        return None;
    }
    let mut i = from;
    while i < v.len()
        invariant
            from <= i <= v@.len(),
            find_from(v@, c, from as int) == find_from(v@, c, i as int),
        decreases v@.len() - i,
    {
        if v[i] == c {
            return Some(i);
        }
        i = i + 1;
    }
    None
}

/// A copy of the characters of `v` in positions `a..b`.
pub fn subvec(v: &Vec<char>, a: usize, b: usize) -> (out: Vec<char>)
    requires
        a <= b <= v@.len(),
    ensures
        out@ == v@.subrange(a as int, b as int),
{
    let mut out: Vec<char> = Vec::new();
    let mut i = a;
    while i < b
        invariant
            a <= i <= b <= v@.len(),
            out@ == v@.subrange(a as int, i as int),
        decreases b - i,
    {
        out.push(v[i]);
        i = i + 1;
        proof {
            assert(v@.subrange(a as int, i as int) =~= v@.subrange(a as int, i - 1).push(
                v@[i - 1],
            ));
        }
    }
    out
}

// ---- replacing a fixed pattern ----

/// `s` with each leftmost, non-overlapping occurrence of `pat` replaced by
/// `rep`, as `str::replace` does; the empty pattern replaces nothing.
pub open spec fn replaced(s: Seq<char>, pat: Seq<char>, rep: Seq<char>) -> Seq<char>
    decreases s.len(),
{
    if pat.len() == 0 || s.len() < pat.len() {
        s
    } else if s.take(pat.len() as int) == pat {
        rep + replaced(s.skip(pat.len() as int), pat, rep)
    } else {
        seq![s[0]] + replaced(s.drop_first(), pat, rep)
    }
}

/// Whether `pat` occurs in `v` starting at `i`.
fn match_at(v: &Vec<char>, pat: &Vec<char>, i: usize) -> (r: bool)
    requires
        i + pat@.len() <= v@.len(),
    ensures
        r == (v@.subrange(i as int, i + pat@.len()) == pat@),
{
    let n = v.len();
    let mut k: usize = 0;
    while k < pat.len()
        invariant
            0 <= k <= pat@.len(),
            n == v@.len(),
            i + pat@.len() <= n,
            forall|q: int| 0 <= q < k ==> v@[i + q] == pat@[q],
        decreases pat@.len() - k,
    {
        proof {
            assert(i + k < n);
        }
        if v[i + k] != pat[k] {
            proof {
                assert(v@.subrange(i as int, i + pat@.len())[k as int] != pat@[k as int]);
            }
            return false;
        }
        k = k + 1;
    }
    proof {
        assert(v@.subrange(i as int, i + pat@.len()) =~= pat@);
    }
    true
}

/// Replaces every leftmost, non-overlapping occurrence of `pat` by `rep`.
pub fn replace_vec(v: &Vec<char>, pat: &Vec<char>, rep: &Vec<char>) -> (out: Vec<char>)
    ensures
        out@ == replaced(v@, pat@, rep@),
{
    let m = pat.len();
    let mut out: Vec<char> = Vec::new();
    let mut i: usize = 0;
    proof {
        assert(v@.skip(0) =~= v@);
    }
    while i < v.len()
        invariant
            0 <= i <= v@.len(),
            m == pat@.len(),
            replaced(v@, pat@, rep@) == out@ + replaced(v@.skip(i as int), pat@, rep@),
        decreases v@.len() - i,
    {
        let ghost rest = v@.skip(i as int);
        if m > 0 && m <= v.len() - i && match_at(v, pat, i) {
            proof {
                assert(rest.take(m as int) =~= v@.subrange(i as int, i + m));
            }
            let ghost out0 = out@;
            let mut k: usize = 0;
            while k < rep.len()
                invariant
                    0 <= k <= rep@.len(),
                    out@ == out0 + rep@.take(k as int),
                decreases rep@.len() - k,
            {
                out.push(rep[k]);
                k = k + 1;
                proof {
                    assert(out0 + rep@.take(k as int) =~= (out0 + rep@.take(k - 1)).push(
                        rep@[k - 1],
                    ));
                }
            }
            proof {
                assert(out@ =~= out0 + rep@);
            }
            i = i + m;
            proof {
                assert(rest.skip(m as int) =~= v@.skip(i as int));
                assert(replaced(rest, pat@, rep@) == rep@ + replaced(
                    v@.skip(i as int),
                    pat@,
                    rep@,
                ));
                assert(out0 + replaced(rest, pat@, rep@) =~= out@ + replaced(
                    v@.skip(i as int),
                    pat@,
                    rep@,
                ));
            }
        } else {
            let ghost out0 = out@;
            out.push(v[i]);
            i = i + 1;
            proof {
                assert(rest.drop_first() =~= v@.skip(i as int));
                if m == 0 || rest.len() < m {
                    assert(replaced(rest, pat@, rep@) =~= rest);
                    assert(replaced(rest.drop_first(), pat@, rep@) =~= rest.drop_first());
                } else {
                    assert(rest.take(m as int) =~= v@.subrange(i - 1, i - 1 + m));
                    assert(rest.take(m as int) != pat@);
                }
                assert(replaced(rest, pat@, rep@) =~= seq![rest[0]] + replaced(
                    rest.drop_first(),
                    pat@,
                    rep@,
                ));
                assert(out0 + replaced(rest, pat@, rep@) =~= out@ + replaced(
                    v@.skip(i as int),
                    pat@,
                    rep@,
                ));
            }
        }
    }
    proof {
        assert(v@.skip(v@.len() as int) =~= Seq::<char>::empty());
    }
    out
}

/// Appends every character of `piece` to `out`.
pub fn push_all(piece: &Vec<char>, out: &mut Vec<char>)
    ensures
        final(out)@ == old(out)@ + piece@,
{
    let mut i: usize = 0;
    proof {
        assert(out@ =~= out@ + piece@.take(0));
    }
    while i < piece.len()
        invariant
            0 <= i <= piece@.len(),
            out@ == old(out)@ + piece@.take(i as int),
        decreases piece@.len() - i,
    {
        out.push(piece[i]);
        i = i + 1;
        proof {
            assert(old(out)@ + piece@.take(i as int) =~= (old(out)@ + piece@.take(i - 1)).push(
                piece@[i - 1],
            ));
        }
    }
    proof {
        assert(piece@.take(piece@.len() as int) =~= piece@);
    }
}

// ---- joining ----

/// The parts interleaved with the separator sequence.
pub open spec fn join_with(parts: Seq<Seq<char>>, sep: Seq<char>) -> Seq<char>
    decreases parts.len(),
{
    if parts.len() == 0 {
        Seq::<char>::empty()
    } else if parts.len() == 1 {
        parts[0]
    } else {
        join_with(parts.drop_last(), sep) + sep + parts.last()
    }
}

// ---- coalescing runs of a repeated character ----

/// `s` with every run of consecutive `c` characters collapsed to a single one.
pub open spec fn coalesced(s: Seq<char>, c: char) -> Seq<char>
    decreases s.len(),
{
    if s.len() == 0 {
        Seq::<char>::empty()
    } else {
        let r = coalesced(s.drop_last(), c);
        if s.last() == c && s.len() >= 2 && s[s.len() - 2] == c {
            r
        } else {
            r.push(s.last())
        }
    }
}

/// A nonempty sequence keeps its last character under coalescing.
pub proof fn lemma_coalesced_last(s: Seq<char>, c: char)
    requires
        s.len() > 0,
    ensures
        coalesced(s, c).len() > 0,
        coalesced(s, c).last() == s.last(),
    decreases s.len(),
{
    if s.last() == c && s.len() >= 2 && s[s.len() - 2] == c {
        lemma_coalesced_last(s.drop_last(), c);
    }
}

/// No two adjacent positions of `s` both hold `c`.
pub open spec fn no_adjacent(s: Seq<char>, c: char) -> bool {
    forall|i: int| 0 <= i < s.len() - 1 ==> !((#[trigger] s[i]) == c && s[i + 1] == c)
}

/// Coalescing leaves no two adjacent copies of `c`.
pub proof fn lemma_coalesced_no_adjacent(s: Seq<char>, c: char)
    ensures
        no_adjacent(coalesced(s, c), c),
    decreases s.len(),
{
    if s.len() > 0 {
        lemma_coalesced_no_adjacent(s.drop_last(), c);
        let r = coalesced(s.drop_last(), c);
        if s.last() == c && s.len() >= 2 && s[s.len() - 2] == c {
        } else {
            if s.last() == c && s.len() >= 2 {
                lemma_coalesced_last(s.drop_last(), c);
                assert(r.last() == s[s.len() - 2]);
            }
            if s.len() == 1 {
                assert(coalesced(s, c) =~= r.push(s.last()));
            }
        }
    }
}

/// A sequence without adjacent copies of `c` is left unchanged.
pub proof fn lemma_coalesced_fixed(s: Seq<char>, c: char)
    requires
        no_adjacent(s, c),
    ensures
        coalesced(s, c) == s,
    decreases s.len(),
{
    if s.len() > 0 {
        assert(no_adjacent(s.drop_last(), c)) by {
            assert(forall|i: int|
                0 <= i < s.drop_last().len() - 1 ==> (#[trigger] s.drop_last()[i]) == s[i]
                    && s.drop_last()[i + 1] == s[i + 1]);
        }
        lemma_coalesced_fixed(s.drop_last(), c);
        if s.last() == c && s.len() >= 2 && s[s.len() - 2] == c {
            assert(false);
        }
        assert(coalesced(s, c) =~= s.drop_last().push(s.last()));
        assert(s.drop_last().push(s.last()) =~= s);
    }
}

/// Coalescing is idempotent.
pub proof fn lemma_coalesced_idempotent(s: Seq<char>, c: char)
    ensures
        coalesced(coalesced(s, c), c) == coalesced(s, c),
{
    lemma_coalesced_no_adjacent(s, c);
    lemma_coalesced_fixed(coalesced(s, c), c);
}

/// Coalesces runs of `c` in a vector of characters.
pub fn coalesce_vec(v: &Vec<char>, c: char) -> (out: Vec<char>)
    ensures
        out@ == coalesced(v@, c),
{
    let mut out: Vec<char> = Vec::new();
    let mut i: usize = 0;
    proof {
        assert(out@ =~= coalesced(v@.take(0), c));
    }
    while i < v.len()
        invariant
            0 <= i <= v@.len(),
            out@ == coalesced(v@.take(i as int), c),
        decreases v@.len() - i,
    {
        if !(v[i] == c && i > 0 && v[i - 1] == c) {
            out.push(v[i]);
        }
        i = i + 1;
        proof {
            assert(v@.take(i as int).drop_last() =~= v@.take(i - 1));
            assert(v@.take(i as int).last() == v@[i - 1]);
            if i >= 2 {
                assert(v@.take(i as int)[i - 2] == v@[i - 2]);
            }
        }
    }
    proof {
        assert(v@.take(v@.len() as int) =~= v@);
    }
    out
}

// ---- ASCII uppercasing ----

/// An ASCII lowercase letter mapped to its uppercase form; other characters kept.
pub open spec fn upper_char(c: char) -> char {
    if 'a' <= c && c <= 'z' {
        ((c as u8) - 32) as char
    } else {
        c
    }
}

pub open spec fn upper_seq(s: Seq<char>) -> Seq<char> {
    s.map_values(|c: char| upper_char(c))
}

/// Uppercasing is idempotent.
pub proof fn lemma_upper_seq_idempotent(s: Seq<char>)
    ensures
        upper_seq(upper_seq(s)) == upper_seq(s),
{
    assert(upper_seq(upper_seq(s)) =~= upper_seq(s)) by {
        assert forall|i: int| 0 <= i < s.len() implies upper_char(upper_char(s[i])) == upper_char(
            s[i],
        ) by {
            let c = s[i];
            if 'a' <= c && c <= 'z' {
                assert(upper_char(c) == ((c as u8) - 32) as char);
                assert(!('a' <= upper_char(c) && upper_char(c) <= 'z'));
            }
        }
    }
}

/// Uppercases the ASCII letters of a vector of characters.
pub fn upper_vec(v: &Vec<char>) -> (out: Vec<char>)
    ensures
        out@ == upper_seq(v@),
{
    let mut out: Vec<char> = Vec::new();
    let mut i: usize = 0;
    while i < v.len()
        invariant
            0 <= i <= v@.len(),
            out@ == upper_seq(v@.take(i as int)),
        decreases v@.len() - i,
    {
        let c = v[i];
        if 'a' <= c && c <= 'z' {
            out.push(((c as u8) - 32) as char);
        } else {
            out.push(c);
        }
        i = i + 1;
        proof {
            assert(upper_seq(v@.take(i as int)) =~= upper_seq(v@.take(i - 1)).push(
                upper_char(v@[i - 1]),
            ));
        }
    }
    proof {
        assert(v@.take(v@.len() as int) =~= v@);
    }
    out
}

// ---- decimal rendering of integers ----

pub open spec fn dec_digit(d: int) -> char {
    if d == 0 {
        '0'
    } else if d == 1 {
        '1'
    } else if d == 2 {
        '2'
    } else if d == 3 {
        '3'
    } else if d == 4 {
        '4'
    } else if d == 5 {
        '5'
    } else if d == 6 {
        '6'
    } else if d == 7 {
        '7'
    } else if d == 8 {
        '8'
    } else {
        '9'
    }
}

/// The decimal digits of a nonnegative integer, most significant first.
pub open spec fn dec_str(n: int) -> Seq<char>
    decreases n,
{
    if n < 10 {
        seq![dec_digit(n)]
    } else {
        dec_str(n / 10).push(dec_digit(n % 10))
    }
}

/// The decimal rendering of an integer, with a leading minus sign if negative.
pub open spec fn int_dec_str(n: int) -> Seq<char> {
    if n < 0 {
        seq!['-'] + dec_str(-n)
    } else {
        dec_str(n)
    }
}

fn dec_digit_exec(d: u64) -> (c: char)
    requires
        d < 10,
    ensures
        c == dec_digit(d as int),
{
    if d == 0 {
        '0'
    } else if d == 1 {
        '1'
    } else if d == 2 {
        '2'
    } else if d == 3 {
        '3'
    } else if d == 4 {
        '4'
    } else if d == 5 {
        '5'
    } else if d == 6 {
        '6'
    } else if d == 7 {
        '7'
    } else if d == 8 {
        '8'
    } else {
        '9'
    }
}

fn u64_dec_chars(n: u64) -> (v: Vec<char>)
    ensures
        v@ == dec_str(n as int),
    decreases n,
{
    if n < 10 {
        let mut v: Vec<char> = Vec::new();
        v.push(dec_digit_exec(n));
        proof {
            assert(v@ =~= dec_str(n as int));
        }
        v
    } else {
        let mut v = u64_dec_chars(n / 10);
        v.push(dec_digit_exec(n % 10));
        v
    }
}

/// Renders an unsigned integer in decimal.
pub fn u64_to_string(n: u64) -> (s: String)
    ensures
        s@ == dec_str(n as int),
{
    let v = u64_dec_chars(n);
    string_of(&v)
}

/// Renders a signed integer in decimal.
pub fn i64_to_string(n: i64) -> (s: String)
    ensures
        s@ == int_dec_str(n as int),
{
    if n >= 0 {
        u64_to_string(n as u64)
    } else {
        let m: u64 = if n == i64::MIN {
            9223372036854775808u64
        } else {
            (-n) as u64
        };
        proof {
            assert(m as int == -(n as int));
        }
        let v = u64_dec_chars(m);
        let mut out: Vec<char> = Vec::new();
        out.push('-');
        let mut i: usize = 0;
        while i < v.len()
            invariant
                0 <= i <= v@.len(),
                out@ == seq!['-'] + v@.take(i as int),
            decreases v@.len() - i,
        {
            out.push(v[i]);
            i = i + 1;
            proof {
                assert(seq!['-'] + v@.take(i as int) =~= (seq!['-'] + v@.take(i - 1)).push(
                    v@[i - 1],
                ));
            }
        }
        proof {
            assert(v@.take(v@.len() as int) =~= v@);
        }
        string_of(&out)
    }
}

// ---- lexicographic order on character sequences ----

/// Strict lexicographic order by unicode code point, matching the byte-wise
/// ordering of the UTF-8 encodings.
pub open spec fn lex_lt(a: Seq<char>, b: Seq<char>) -> bool
    decreases a.len(),
{
    if b.len() == 0 {
        false
    } else if a.len() == 0 {
        true
    } else if (a[0] as u32) < (b[0] as u32) {
        true
    } else if a[0] == b[0] {
        lex_lt(a.drop_first(), b.drop_first())
    } else {
        false
    }
}

/// Of two distinct sequences, one orders strictly before the other.
pub proof fn lemma_lex_lt_trichotomy(a: Seq<char>, b: Seq<char>)
    ensures
        a == b || lex_lt(a, b) || lex_lt(b, a),
    decreases a.len(),
{
    if b.len() == 0 {
        if a.len() == 0 {
            assert(a =~= b);
        }
    } else if a.len() == 0 {
    } else if (a[0] as u32) < (b[0] as u32) {
    } else if a[0] == b[0] {
        lemma_lex_lt_trichotomy(a.drop_first(), b.drop_first());
        if a.drop_first() == b.drop_first() {
            assert(a.drop_first().len() == a.len() - 1);
            assert(b.drop_first().len() == b.len() - 1);
            assert(a.len() == b.len());
            assert forall|i: int| 0 <= i < a.len() implies a[i] == b[i] by {
                if i > 0 {
                    assert(a.drop_first()[i - 1] == a[i]);
                    assert(b.drop_first()[i - 1] == b[i]);
                }
            }
            assert(a =~= b);
        }
    } else {
        assert((b[0] as u32) < (a[0] as u32)) by {
            if a[0] as u32 == b[0] as u32 {
                vstd::utf8::char_u32_cast(a[0], a[0] as u32);
                vstd::utf8::char_u32_cast(b[0], b[0] as u32);
            }
        }
    }
}

/// Whether `a` orders strictly before `b`.
pub fn str_lt(a: &str, b: &str) -> (r: bool)
    ensures
        r == lex_lt(a@, b@),
{
    let an = a.unicode_len();
    let bn = b.unicode_len();
    let mut i: usize = 0;
    proof {
        assert(a@.skip(0) =~= a@);
        assert(b@.skip(0) =~= b@);
    }
    loop
        invariant
            an == a@.len(),
            bn == b@.len(),
            0 <= i <= an,
            0 <= i <= bn,
            forall|k: int| 0 <= k < i ==> a@[k] == b@[k],
            lex_lt(a@, b@) == lex_lt(a@.skip(i as int), b@.skip(i as int)),
        decreases an - i,
    {
        if i >= bn {
            return false;
        }
        if i >= an {
            return true;
        }
        let ca = a.get_char(i);
        let cb = b.get_char(i);
        if (ca as u32) < (cb as u32) {
            return true;
        }
        if ca != cb {
            proof {
                assert(!lex_lt(a@.skip(i as int), b@.skip(i as int)));
            }
            return false;
        }
        i = i + 1;
        proof {
            assert(a@.skip(i - 1).drop_first() =~= a@.skip(i as int));
            assert(b@.skip(i - 1).drop_first() =~= b@.skip(i as int));
        }
    }
}

} // verus!
