//! The JSON-RPC conventions that the block scan relies on: how a reply is
//! read, and how a block number is written as a quantity.

use vstd::prelude::*;
use crate::hex::{all_hex_digits, hex_digit_value, hex_digits_of, hex_value, spec_parse_hex_u64};

verus! {

/// The error object of a JSON-RPC reply.
#[derive(Clone, Debug, PartialEq, Eq)]
pub struct RpcError {
    pub code: i32,
    pub message: String,
}

/// Why a JSON-RPC reply carries no usable result.
#[derive(Clone, Debug, PartialEq, Eq)]
pub enum RpcFailure {
    /// The server answered with an error object.
    Remote(RpcError),
    /// The reply has neither an error nor a result.
    MissingResult,
}

/// Reads a reply: its error, if it has one, wins over its result.
pub fn interpret_response<T>(result: Option<T>, error: Option<RpcError>) -> (r: Result<T, RpcFailure>)
    ensures
        match error {
            Some(e) => r == Err::<T, RpcFailure>(RpcFailure::Remote(e)),
            None => match result {
                Some(v) => r == Ok::<T, RpcFailure>(v),
                None => r == Err::<T, RpcFailure>(RpcFailure::MissingResult),
            },
        },
{
    match error {
        Some(e) => Err(RpcFailure::Remote(e)),
        None => match result {
            Some(v) => Ok(v),
            None => Err(RpcFailure::MissingResult),
        },
    }
}

/// The lower-case base-16 digit of `d` (below 16).
pub open spec fn lower_hex_digit(d: nat) -> u8 {
    if d < 10 {
        (0x30 + d) as u8
    } else {
        (0x61 + d - 10) as u8
    }
}

/// The lower-case base-16 digits of `n`, most significant first, with no
/// leading zero (`0` is written as one digit).
pub open spec fn lower_hex_digits(n: nat) -> Seq<u8>
    decreases n,
{
    if n < 16 {
        seq![lower_hex_digit(n)]
    } else {
        lower_hex_digits(n / 16).push(lower_hex_digit(n % 16))
    }
}

/// `n` as a JSON-RPC quantity: `0x` and its lower-case base-16 digits.
pub open spec fn hex_quantity_bytes(n: nat) -> Seq<u8> {
    seq![0x30u8, 0x78u8] + lower_hex_digits(n)
}

fn push_lower_hex_digits(n: u64, out: &mut Vec<u8>)
    ensures
        final(out)@ == old(out)@ + lower_hex_digits(n as nat),
    decreases n,
{
    if n >= 16 {
        push_lower_hex_digits(n / 16, out);
    }
    let d = n % 16;
    let c: u8 = if d < 10 { 0x30 + d as u8 } else { 0x61 + (d - 10) as u8 };
    out.push(c);
}

/// Writes `n` the way `format!("0x{:x}", n)` does.
pub fn hex_quantity(n: u64) -> (q: Vec<u8>)
    ensures
        q@ == hex_quantity_bytes(n as nat),
        q@.len() >= 3 && q@[0] == 0x30 && q@[1] == 0x78,
        n == 0 ==> q@ == seq![0x30u8, 0x78u8, 0x30u8],
        n > 0 ==> q@[2] != 0x30,
        forall|i: int| 2 <= i < q@.len() ==> (0x30 <= #[trigger] q@[i] <= 0x39 || 0x61 <= q@[i] <= 0x66),
        spec_parse_hex_u64(q@.skip(2)) == Some(n),
{
    proof {
        lemma_hex_quantity_form(n);
        lemma_hex_quantity_roundtrip(n);
    }
    let mut q: Vec<u8> = Vec::new();
    q.push(0x30);
    q.push(0x78);
    push_lower_hex_digits(n, &mut q);
    q
}

proof fn lemma_lower_hex_digits_read_back(n: nat)
    ensures
        lower_hex_digits(n).len() >= 1,
        all_hex_digits(lower_hex_digits(n)),
        hex_value(lower_hex_digits(n)) == n,
        lower_hex_digits(n)[0] != 0x2b,
    decreases n,
{
    let s = lower_hex_digits(n);
    if n < 16 {
        assert(hex_digit_value(s[0]) == Some(n));
        assert(s.drop_last() =~= Seq::<u8>::empty());
        assert(hex_value(s.drop_last()) == 0);
    } else {
        lemma_lower_hex_digits_read_back(n / 16);
        let p = lower_hex_digits(n / 16);
        assert(s.drop_last() == p);
        assert(hex_digit_value(s.last()) == Some(n % 16));
        assert forall|i: int| 0 <= i < s.len() implies (#[trigger] hex_digit_value(s[i])) is Some by {
            if i < p.len() {
                assert(s[i] == p[i]);
            }
        }
        assert(s[0] == p[0]);
        vstd::arithmetic::div_mod::lemma_fundamental_div_mod(n as int, 16);
        assert(hex_value(s) == hex_value(p) * 16 + n % 16);
    }
}

proof fn lemma_lower_hex_digits_form(n: nat)
    ensures
        lower_hex_digits(n).len() >= 1,
        n == 0 ==> lower_hex_digits(n) == seq![0x30u8],
        n > 0 ==> lower_hex_digits(n)[0] != 0x30,
        forall|i: int| 0 <= i < lower_hex_digits(n).len()
            ==> (0x30 <= #[trigger] lower_hex_digits(n)[i] <= 0x39 || 0x61 <= lower_hex_digits(n)[i] <= 0x66),
    decreases n,
{
    let s = lower_hex_digits(n);
    if n >= 16 {
        lemma_lower_hex_digits_form(n / 16);
        let p = lower_hex_digits(n / 16);
        assert(s == p.push(lower_hex_digit(n % 16)));
        assert(s[0] == p[0]);
        assert forall|i: int| 0 <= i < s.len()
            implies (0x30 <= #[trigger] s[i] <= 0x39 || 0x61 <= s[i] <= 0x66) by {
            if i < p.len() {
                assert(s[i] == p[i]);
            }
        }
    }
}

/// A written quantity is `0x` followed by lower-case base-16 digits with no
/// leading zero: `0x0` for zero, and for any other number a first digit
/// other than `0`.
pub proof fn lemma_hex_quantity_form(n: u64)
    ensures
        hex_quantity_bytes(n as nat).len() >= 3,
        hex_quantity_bytes(n as nat)[0] == 0x30 && hex_quantity_bytes(n as nat)[1] == 0x78,
        n == 0 ==> hex_quantity_bytes(n as nat) == seq![0x30u8, 0x78u8, 0x30u8],
        n > 0 ==> hex_quantity_bytes(n as nat)[2] != 0x30,
        forall|i: int| 2 <= i < hex_quantity_bytes(n as nat).len()
            ==> (0x30 <= #[trigger] hex_quantity_bytes(n as nat)[i] <= 0x39
                || 0x61 <= hex_quantity_bytes(n as nat)[i] <= 0x66),
{
    lemma_lower_hex_digits_form(n as nat);
    let q = hex_quantity_bytes(n as nat);
    let d = lower_hex_digits(n as nat);
    assert forall|i: int| 2 <= i < q.len() implies (0x30 <= #[trigger] q[i] <= 0x39 || 0x61 <= q[i] <= 0x66) by {
        assert(q[i] == d[i - 2]);
    }
    if n == 0 {
        assert(q =~= seq![0x30u8, 0x78u8, 0x30u8]);
    }
    assert(q[2] == d[0]);
}

/// Reading a written quantity gives the number back: parsing the digits
/// after the `0x` of `hex_quantity(n)` yields `n`.
pub proof fn lemma_hex_quantity_roundtrip(n: u64)
    ensures
        hex_quantity_bytes(n as nat).len() >= 3,
        spec_parse_hex_u64(hex_quantity_bytes(n as nat).skip(2)) == Some(n),
{
    lemma_lower_hex_digits_read_back(n as nat);
    let q = hex_quantity_bytes(n as nat);
    let d = lower_hex_digits(n as nat);
    assert(q.skip(2) == d);
    assert(hex_digits_of(d) == d);
}

} // verus!
