//! Unsigned base-16 numbers as the JSON-RPC interface writes them.

use vstd::prelude::*;

verus! {

/// The value of one base-16 digit (`0-9`, `a-f`, `A-F`), if it is one.
pub open spec fn hex_digit_value(c: u8) -> Option<nat> {
    if 0x30 <= c <= 0x39 {
        Some((c - 0x30) as nat)
    } else if 0x61 <= c <= 0x66 {
        Some((c - 0x61 + 10) as nat)
    } else if 0x41 <= c <= 0x46 {
        Some((c - 0x41 + 10) as nat)
    } else {
        None
    }
}

/// Whether every byte of `d` is a base-16 digit.
pub open spec fn all_hex_digits(d: Seq<u8>) -> bool {
    forall|i: int| 0 <= i < d.len() ==> (#[trigger] hex_digit_value(d[i])) is Some
}

/// The number that the base-16 digits `d` write, most significant first.
pub open spec fn hex_value(d: Seq<u8>) -> nat
    decreases d.len(),
{
    if d.len() == 0 {
        0
    } else {
        hex_value(d.drop_last()) * 16 + hex_digit_value(d.last()).unwrap_or(0)
    }
}

/// The digits of `s` once an optional leading `+` is set aside.
pub open spec fn hex_digits_of(s: Seq<u8>) -> Seq<u8> {
    if s.len() > 0 && s[0] == 0x2b {
        s.skip(1)
    } else {
        s
    }
}

/// What `u64::from_str_radix(s, 16)` accepts: an optional `+`, then at least
/// one base-16 digit and nothing else, for a value that fits in 64 bits.
pub open spec fn spec_parse_hex_u64(s: Seq<u8>) -> Option<u64> {
    let d = hex_digits_of(s);
    if d.len() == 0 || !all_hex_digits(d) || hex_value(d) > u64::MAX {
        None
    } else {
        Some(hex_value(d) as u64)
    }
}

/// Adding digits never makes the value smaller.
pub proof fn lemma_hex_value_monotone(d: Seq<u8>, i: int)
    requires
        0 <= i <= d.len(),
    ensures
        hex_value(d.subrange(0, i)) <= hex_value(d),
    decreases d.len() - i,
{
    if i < d.len() {
        let e = d.subrange(0, i + 1);
        assert(e.drop_last() == d.subrange(0, i));
        lemma_hex_value_monotone(d, i + 1);
    } else {
        assert(d.subrange(0, i) == d);
    }
}

proof fn lemma_hex_value_pointwise(a: Seq<u8>, b: Seq<u8>)
    requires
        a.len() == b.len(),
        forall|j: int| 0 <= j < a.len() ==> hex_digit_value(#[trigger] a[j]) == hex_digit_value(b[j]),
    ensures
        hex_value(a) == hex_value(b),
        all_hex_digits(a) == all_hex_digits(b),
    decreases a.len(),
{
    if a.len() > 0 {
        let a0 = a.drop_last();
        let b0 = b.drop_last();
        assert forall|j: int| 0 <= j < a0.len() implies hex_digit_value(#[trigger] a0[j]) == hex_digit_value(b0[j]) by {
            assert(a0[j] == a[j] && b0[j] == b[j]);
        }
        lemma_hex_value_pointwise(a0, b0);
        assert(hex_digit_value(a.last()) == hex_digit_value(b.last()));
    }
    if all_hex_digits(a) {
        assert forall|j: int| 0 <= j < b.len() implies (#[trigger] hex_digit_value(b[j])) is Some by {
            assert(hex_digit_value(a[j]) is Some);
        }
    }
    if all_hex_digits(b) {
        assert forall|j: int| 0 <= j < a.len() implies (#[trigger] hex_digit_value(a[j])) is Some by {
            assert(hex_digit_value(b[j]) is Some);
        }
    }
}

/// A one-character string parses to the value of that base-16 digit:
/// `0`-`9` to 0-9, `a`-`f` and `A`-`F` alike to 10-15; any other
/// character (the sign `+` on its own among them) does not parse.
pub proof fn lemma_parse_one_digit(c: u8)
    ensures
        spec_parse_hex_u64(seq![c]) == if 0x30 <= c <= 0x39 {
            Some((c - 0x30) as u64)
        } else if 0x61 <= c <= 0x66 {
            Some((c - 0x61 + 10) as u64)
        } else if 0x41 <= c <= 0x46 {
            Some((c - 0x41 + 10) as u64)
        } else {
            None::<u64>
        },
{
    let s = seq![c];
    assert(s.drop_last() =~= Seq::<u8>::empty());
    assert(hex_value(Seq::<u8>::empty()) == 0);
    if c == 0x2b {
        assert(hex_digits_of(s) =~= Seq::<u8>::empty());
    } else {
        assert(hex_digits_of(s) == s);
        if hex_digit_value(c) is None {
            assert(!all_hex_digits(s));
        }
    }
}

/// Upper- and lower-case digits read alike: writing one upper-case digit
/// `A`-`F` of any string in lower case does not change what it parses to.
pub proof fn lemma_parse_case_insensitive(s: Seq<u8>, i: int)
    requires
        0 <= i < s.len(),
        0x41 <= s[i] <= 0x46,
    ensures
        spec_parse_hex_u64(s.update(i, (s[i] + 0x20) as u8)) == spec_parse_hex_u64(s),
{
    let t = s.update(i, (s[i] + 0x20) as u8);
    let plus = s.len() > 0 && s[0] == 0x2b;
    assert(plus == (t.len() > 0 && t[0] == 0x2b));
    let k: int = if plus { 1 } else { 0 };
    let a = hex_digits_of(s);
    let b = hex_digits_of(t);
    assert(a == s.skip(k) && b == t.skip(k));
    assert forall|j: int| 0 <= j < a.len() implies hex_digit_value(#[trigger] a[j]) == hex_digit_value(b[j]) by {
        assert(a[j] == s[j + k] && b[j] == t[j + k]);
    }
    lemma_hex_value_pointwise(a, b);
}

/// Appending a digit shifts the value one base-16 place: when `s` parses to
/// `v` and the character `c` alone parses to `d`, `s` followed by `c`
/// parses to `16 * v + d` if that fits in 64 bits, and fails otherwise.
pub proof fn lemma_parse_push(s: Seq<u8>, c: u8, v: u64, d: u64)
    requires
        spec_parse_hex_u64(s) == Some(v),
        spec_parse_hex_u64(seq![c]) == Some(d),
    ensures
        spec_parse_hex_u64(s.push(c)) == if v * 16 + d <= u64::MAX {
            Some((v * 16 + d) as u64)
        } else {
            None::<u64>
        },
{
    lemma_parse_one_digit(c);
    let one = seq![c];
    assert(one.drop_last() =~= Seq::<u8>::empty());
    assert(hex_value(Seq::<u8>::empty()) == 0);
    assert(c != 0x2b);
    assert(hex_digit_value(c) == Some(d as nat));
    let t = s.push(c);
    let a = hex_digits_of(s);
    let b = hex_digits_of(t);
    assert(s.len() > 0);
    assert(t[0] == s[0]);
    assert(b == a.push(c));
    assert(b.drop_last() == a);
    assert(hex_value(b) == hex_value(a) * 16 + d);
    assert forall|j: int| 0 <= j < b.len() implies (#[trigger] hex_digit_value(b[j])) is Some by {
        if j < a.len() {
            assert(b[j] == a[j]);
        }
    }
}

proof fn lemma_hex_value_leading_zero(d: Seq<u8>)
    ensures
        hex_value(seq![0x30u8] + d) == hex_value(d),
    decreases d.len(),
{
    let z = seq![0x30u8] + d;
    if d.len() == 0 {
        assert(z =~= seq![0x30u8]);
        assert(z.drop_last() =~= Seq::<u8>::empty());
        assert(hex_value(Seq::<u8>::empty()) == 0);
    } else {
        lemma_hex_value_leading_zero(d.drop_last());
        assert(z.drop_last() =~= seq![0x30u8] + d.drop_last());
        assert(z.last() == d.last());
    }
}

/// A leading `+` changes nothing, and neither does a leading zero digit:
/// for a non-empty string `s` that does not itself start with `+`, `+s`
/// and `0s` parse to what `s` parses to.
pub proof fn lemma_parse_plus_and_leading_zero(s: Seq<u8>)
    requires
        s.len() > 0,
        s[0] != 0x2b,
    ensures
        spec_parse_hex_u64(seq![0x2bu8] + s) == spec_parse_hex_u64(s),
        spec_parse_hex_u64(seq![0x30u8] + s) == spec_parse_hex_u64(s),
{
    assert(hex_digits_of(s) == s);
    assert(hex_digits_of(seq![0x2bu8] + s) =~= s);
    let z = seq![0x30u8] + s;
    assert(hex_digits_of(z) == z);
    lemma_hex_value_leading_zero(s);
    assert(hex_digit_value(0x30u8) == Some(0nat));
    if all_hex_digits(s) {
        assert forall|j: int| 0 <= j < z.len() implies (#[trigger] hex_digit_value(z[j])) is Some by {
            if j > 0 {
                assert(z[j] == s[j - 1]);
            }
        }
    }
    if all_hex_digits(z) {
        assert forall|j: int| 0 <= j < s.len() implies (#[trigger] hex_digit_value(s[j])) is Some by {
            assert(z[j + 1] == s[j]);
        }
    }
}

fn digit_value(c: u8) -> (r: Option<u64>)
    ensures
        match hex_digit_value(c) {
            Some(v) => r == Some(v as u64),
            None => r is None,
        },
{
    if 0x30 <= c && c <= 0x39 {
        Some((c - 0x30) as u64)
    } else if 0x61 <= c && c <= 0x66 {
        Some((c - 0x61 + 10) as u64)
    } else if 0x41 <= c && c <= 0x46 {
        Some((c - 0x41 + 10) as u64)
    } else {
        None
    }
}

/// Parses an unsigned base-16 number the way `u64::from_str_radix(s, 16)`
/// does; `None` where that returns an error.
pub fn parse_hex_u64(s: &[u8]) -> (r: Option<u64>)
    ensures
        r == spec_parse_hex_u64(s@),
{
    let start: usize = if s.len() > 0 && s[0] == 0x2b { 1 } else { 0 };
    let ghost d = hex_digits_of(s@);
    assert(d == s@.skip(start as int));
    if start == s.len() {
        return None;
    }
    let mut value: u64 = 0;
    let mut i: usize = start;
    while i < s.len()
        invariant
            start <= i <= s@.len(),
            d == s@.skip(start as int),
            d == hex_digits_of(s@),
            all_hex_digits(d.subrange(0, i - start)),
            value as nat == hex_value(d.subrange(0, i - start)),
        decreases s@.len() - i,
    {
        let ghost k: int = i - start;
        let ghost pre = d.subrange(0, k + 1);
        assert(pre.drop_last() == d.subrange(0, k));
        assert(pre.last() == s@[i as int]);
        match digit_value(s[i]) {
            None => {
                assert(!all_hex_digits(d)) by {
                    assert(d[k] == s@[i as int]);
                }
                return None;
            },
            Some(v) => {
                if value > (u64::MAX - v) / 16 {
                    proof {
                        assert(hex_value(pre) == value * 16 + v);
                        assert(hex_value(pre) > u64::MAX);
                        if all_hex_digits(d) {
                            lemma_hex_value_monotone(d, k + 1);
                        }
                    }
                    return None;
                }
                value = value * 16 + v;
                assert forall|j: int| 0 <= j < pre.len() implies (#[trigger] hex_digit_value(pre[j])) is Some by {
                    if j < k {
                        assert(pre[j] == d.subrange(0, k)[j]);
                    }
                }
            },
        }
        i = i + 1;
    }
    assert(d.subrange(0, (s@.len() - start) as int) == d);
    Some(value)
}

/// Parses a `0x`-prefixed quantity: the digits after the first two bytes,
/// as `u64::from_str_radix(&s[2..], 16)` reads them.
pub fn parse_hex_quantity(s: &[u8]) -> (r: Option<u64>)
    requires
        s@.len() >= 2,
    ensures
        r == spec_parse_hex_u64(s@.skip(2)),
{
    let digits = &s[2..s.len()];
    assert(digits@ == s@.skip(2));
    parse_hex_u64(digits)
}

} // verus!
