use vstd::prelude::*;

use vstd::string::StringSliceAdditionalSpecFns;

verus! {

// Percent-encoding of parameter keys and values in the form the Apisonator
// service expects: C0 controls, DEL and every non-ASCII byte are escaped,
// and so are space, '"', '#', '<', '>', '`', '?', '{', '}', '%', '/', ';',
// '&', '=', '[' and ']'.

/// Whether a byte of the UTF-8 encoding is escaped.
pub open spec fn in_encode_set(b: u8) -> bool {
    b < 0x20 || b >= 0x7f || b == 0x20u8 || b == 0x22u8 || b == 0x23u8 || b == 0x3cu8 || b == 0x3eu8 || b
        == 0x60u8 || b == 0x3fu8 || b == 0x7bu8 || b == 0x7du8 || b == 0x25u8 || b == 0x2fu8 || b == 0x3bu8 || b
        == 0x26u8 || b == 0x3du8 || b == 0x5bu8 || b == 0x5du8
}

/// The uppercase hexadecimal digit of a value below sixteen.
pub open spec fn hex_digit(d: u8) -> u8 {
    if d < 10 {
        (0x30 + d) as u8
    } else {
        (0x37 + d) as u8
    }
}

/// The escaped form of a byte sequence: an escaped byte becomes a percent
/// sign and two uppercase hexadecimal digits, any other byte stays.
pub open spec fn pct_bytes(bs: Seq<u8>) -> Seq<u8>
    decreases bs.len(),
{
    if bs.len() == 0 {
        Seq::empty()
    } else {
        pct_bytes(bs.drop_last()) + (if in_encode_set(bs.last()) {
            seq![0x25u8, hex_digit(bs.last() / 16), hex_digit(bs.last() % 16)]
        } else {
            seq![bs.last()]
        })
    }
}

/// A sequence of ASCII bytes read as characters.
pub open spec fn ascii_chars(bs: Seq<u8>) -> Seq<char> {
    bs.map_values(|b: u8| b as char)
}

/// The escaped form of a string, over the UTF-8 encoding of its characters.
pub open spec fn encoded_str(s: Seq<char>) -> Seq<char> {
    ascii_chars(pct_bytes(vstd::utf8::encode_utf8(s)))
}

fn hex_digit_exec(d: u8) -> (r: u8)
    requires
        d < 16,
    ensures
        r == hex_digit(d),
{
    if d < 10 {
        0x30 + d
    } else {
        0x37 + d
    }
}

/// Percent-encodes a string for use in an Apisonator extensions header.
pub fn encode(s: &str) -> (r: String)
    ensures
        r@ == ascii_chars(pct_bytes(s.spec_bytes())),
{
    let bytes = s.as_bytes();
    let n = bytes.len();
    let mut out: Vec<u8> = Vec::new();
    let mut i: usize = 0;
    proof {
        assert(out@ =~= pct_bytes(bytes@.take(0)));
    }
    while i < n
        invariant
            n == bytes@.len(),
            0 <= i <= n,
            out@ == pct_bytes(bytes@.take(i as int)),
        decreases n - i,
    {
        let b = bytes[i];
        if b < 0x20 || b >= 0x7f || b == 0x20u8 || b == 0x22u8 || b == 0x23u8 || b == 0x3cu8 || b == 0x3eu8
            || b == 0x60u8 || b == 0x3fu8 || b == 0x7bu8 || b == 0x7du8 || b == 0x25u8 || b == 0x2fu8 || b
            == 0x3bu8 || b == 0x26u8 || b == 0x3du8 || b == 0x5bu8 || b == 0x5du8 {
            out.push(0x25u8);
            out.push(hex_digit_exec(b / 16));
            out.push(hex_digit_exec(b % 16));
        } else {
            out.push(b);
        }
        i = i + 1;
        proof {
            assert(bytes@.take(i as int).drop_last() =~= bytes@.take(i - 1));
            assert(bytes@.take(i as int).last() == bytes@[i - 1]);
            assert(out@ =~= pct_bytes(bytes@.take(i as int)));
        }
    }
    proof {
        assert(bytes@.take(n as int) =~= bytes@);
    }
    let m = out.len();
    let mut chars: Vec<char> = Vec::new();
    let mut j: usize = 0;
    while j < m
        invariant
            m == out@.len(),
            0 <= j <= m,
            chars@ == ascii_chars(out@.take(j as int)),
        decreases m - j,
    {
        chars.push(out[j] as char);
        j = j + 1;
        proof {
            assert(ascii_chars(out@.take(j as int)) =~= ascii_chars(out@.take(j - 1)).push(
                out@[j - 1] as char,
            ));
        }
    }
    proof {
        assert(out@.take(m as int) =~= out@);
    }
    crate::util::chars::string_of(&chars)
}

} // verus!
