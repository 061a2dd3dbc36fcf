//! Whole numbers written out in decimal, however large.

use vstd::prelude::*;
use vstd::string::*;

verus! {

/// The character for a single decimal digit.
pub open spec fn digit_char(d: int) -> char {
    if d == 0 {
        '0'
    } else if d == 1 {
        '1'
    } else if d == 2 {
        '2'
    } else if d == 3 {
        '3'
    } else if d == 4 {
        '4'
    } else if d == 5 {
        '5'
    } else if d == 6 {
        '6'
    } else if d == 7 {
        '7'
    } else if d == 8 {
        '8'
    } else {
        '9'
    }
}

/// A natural number in decimal, most significant digit first, without
/// leading zeros.
pub open spec fn decimal(n: nat) -> Seq<char>
    decreases n,
{
    if n < 10 {
        seq![digit_char(n as int)]
    } else {
        decimal(n / 10).push(digit_char((n % 10) as int))
    }
}

/// The size of an integer without its sign.
pub open spec fn magnitude(i: int) -> nat {
    if i < 0 {
        (-i) as nat
    } else {
        i as nat
    }
}

/// An integer in decimal, with a minus sign in front of a negative one.
pub open spec fn signed_decimal(i: int) -> Seq<char> {
    if i < 0 {
        seq!['-'] + decimal(magnitude(i))
    } else {
        decimal(magnitude(i))
    }
}

/// Two to the power `k`.
pub open spec fn two_to(k: nat) -> nat
    decreases k,
{
    if k == 0 {
        1
    } else {
        2 * two_to((k - 1) as nat)
    }
}

/// Ten to the power `k`.
pub open spec fn ten_to(k: nat) -> nat
    decreases k,
{
    if k == 0 {
        1
    } else {
        10 * ten_to((k - 1) as nat)
    }
}

/// The number that a sequence of decimal digits stands for, least
/// significant digit first.
pub open spec fn digits_value(ds: Seq<u8>) -> nat
    decreases ds.len(),
{
    if ds.len() == 0 {
        0
    } else {
        ds[0] as nat + 10 * digits_value(ds.drop_first())
    }
}

/// Every entry is a decimal digit.
pub open spec fn all_digits(ds: Seq<u8>) -> bool {
    forall|i: int| 0 <= i < ds.len() ==> #[trigger] ds[i] < 10
}

/// Digits, least significant first, with no needless zero at the top: the
/// one way to write a number.
pub open spec fn is_canonical(ds: Seq<u8>) -> bool {
    &&& ds.len() >= 1
    &&& all_digits(ds)
    &&& ds.len() == 1 || ds[ds.len() - 1] != 0
}

/// The digits as text, most significant first.
pub open spec fn digits_text(ds: Seq<u8>) -> Seq<char> {
    Seq::new(ds.len(), |i: int| digit_char(ds[ds.len() - 1 - i] as int))
}

/// A digit put on top adds its worth at that place to the value.
proof fn lemma_value_push(ds: Seq<u8>, d: u8)
    ensures
        digits_value(ds.push(d)) == digits_value(ds) + d * ten_to(ds.len()),
    decreases ds.len(),
{
    let pushed = ds.push(d);
    if ds.len() == 0 {
        assert(pushed.drop_first() =~= Seq::<u8>::empty());
        assert(digits_value(pushed.drop_first()) == 0);
        assert(pushed[0] == d);
        assert(digits_value(pushed) == d);
        assert(ten_to(0) == 1);
        assert(d * ten_to(0) == d);
    } else {
        assert(pushed.drop_first() =~= ds.drop_first().push(d));
        lemma_value_push(ds.drop_first(), d);
        let rest = digits_value(ds.drop_first());
        let p = ten_to((ds.len() - 1) as nat);
        assert(ten_to(ds.len()) == 10 * p);
        assert(pushed[0] == ds[0]);
        assert(digits_value(pushed) == ds[0] + 10 * (rest + d * p));
        assert(10 * (rest + d * p) == 10 * rest + d * (10 * p)) by (nonlinear_arith);
    }
}

/// Canonical digits of more than one place stand for ten at least.
proof fn lemma_canonical_positive(ds: Seq<u8>)
    requires
        is_canonical(ds),
        ds.len() > 1,
    ensures
        digits_value(ds) >= 10,
    decreases ds.len(),
{
    let rest = ds.drop_first();
    if rest.len() == 1 {
        assert(rest[0] == ds[1]);
        assert(rest.drop_first() =~= Seq::<u8>::empty());
        assert(digits_value(rest.drop_first()) == 0);
        assert(digits_value(rest) >= 1);
    } else {
        assert(rest[rest.len() - 1] == ds[ds.len() - 1]);
        assert(forall|i: int| 0 <= i < rest.len() ==> #[trigger] rest[i] == ds[i + 1]);
        lemma_canonical_positive(rest);
    }
}

/// Canonical digits read from the top are the decimal form of their value.
proof fn lemma_canonical_text(ds: Seq<u8>)
    requires
        is_canonical(ds),
    ensures
        decimal(digits_value(ds)) == digits_text(ds),
    decreases ds.len(),
{
    let rest = ds.drop_first();
    if ds.len() == 1 {
        assert(rest =~= Seq::<u8>::empty());
        assert(digits_value(rest) == 0);
        assert(digits_value(ds) == ds[0]);
        assert(digits_text(ds) =~= seq![digit_char(ds[0] as int)]);
    } else {
        assert(forall|i: int| 0 <= i < rest.len() ==> #[trigger] rest[i] == ds[i + 1]);
        assert(rest[rest.len() - 1] == ds[ds.len() - 1]);
        assert(is_canonical(rest));
        lemma_canonical_text(rest);
        lemma_canonical_positive(ds);
        let n = digits_value(ds);
        let r = digits_value(rest);
        assert(n == ds[0] + 10 * r);
        assert(n / 10 == r);
        assert(n % 10 == ds[0]);
        assert(digits_text(ds) =~= digits_text(rest).push(digit_char(ds[0] as int)));
    }
}

/// A single digit as text.
fn digit_str(d: u8) -> (text: &'static str)
    requires
        d < 10,
    ensures
        text@ == seq![digit_char(d as int)],
{
    proof {
        reveal_strlit("0");
        reveal_strlit("1");
        reveal_strlit("2");
        reveal_strlit("3");
        reveal_strlit("4");
        reveal_strlit("5");
        reveal_strlit("6");
        reveal_strlit("7");
        reveal_strlit("8");
        reveal_strlit("9");
    }
    let text = if d == 0 {
        "0"
    } else if d == 1 {
        "1"
    } else if d == 2 {
        "2"
    } else if d == 3 {
        "3"
    } else if d == 4 {
        "4"
    } else if d == 5 {
        "5"
    } else if d == 6 {
        "6"
    } else if d == 7 {
        "7"
    } else if d == 8 {
        "8"
    } else {
        "9"
    };
    assert(text@ =~= seq![digit_char(d as int)]);
    text
}

/// The canonical digits of a number.
fn digits_of(n: u64) -> (ds: Vec<u8>)
    ensures
        is_canonical(ds@),
        digits_value(ds@) == n,
{
    let mut ds: Vec<u8> = Vec::new();
    let first: u8 = (n % 10) as u8;
    ds.push(first);
    let mut rest: u64 = n / 10;
    proof {
        lemma_value_push(Seq::<u8>::empty(), first);
        assert(ds@ =~= Seq::<u8>::empty().push(first));
        assert(digits_value(Seq::<u8>::empty()) == 0);
        assert(ten_to(0) == 1);
        assert(ten_to(1) == 10 * ten_to(0));
        assert(first * ten_to(0) == first);
        assert(digits_value(ds@) == first);
        assert(rest * ten_to(1) == rest * 10);
        assert(ds.len() == 1);
    }
    while rest > 0
        invariant
            ds.len() >= 1,
            all_digits(ds@),
            digits_value(ds@) + rest * ten_to(ds.len() as nat) == n,
            rest == 0 ==> ds.len() == 1 || ds[ds.len() - 1] != 0,
        decreases rest,
    {
        let d: u8 = (rest % 10) as u8;
        proof {
            lemma_value_push(ds@, d);
            let p = ten_to(ds.len() as nat);
            assert(ten_to((ds.len() + 1) as nat) == 10 * p);
            assert(rest * p == d * p + (rest / 10) * (10 * p)) by (nonlinear_arith)
                requires
                    rest == d + 10 * (rest / 10),
            ;
        }
        ds.push(d);
        rest = rest / 10;
    }
    ds
}

/// The canonical digits of twice the number that `ds` stands for.
fn double_digits(ds: &Vec<u8>) -> (out: Vec<u8>)
    requires
        is_canonical(ds@),
    ensures
        is_canonical(out@),
        digits_value(out@) == 2 * digits_value(ds@),
{
    let mut out: Vec<u8> = Vec::new();
    let mut carry: u8 = 0;
    let mut i: usize = 0;
    while i < ds.len()
        invariant
            i <= ds.len(),
            out.len() == i,
            carry <= 1,
            all_digits(ds@),
            all_digits(out@),
            digits_value(out@) + carry * ten_to(i as nat) == 2 * digits_value(ds@.take(i as int)),
            i > 0 ==> out[i - 1] + 10 * carry >= 2 * ds[i - 1],
        decreases ds.len() - i,
    {
        let t: u8 = 2 * ds[i] + carry;
        let low: u8 = t % 10;
        let high: u8 = t / 10;
        proof {
            lemma_value_push(out@, low);
            lemma_value_push(ds@.take(i as int), ds[i as int]);
            assert(ds@.take(i + 1) =~= ds@.take(i as int).push(ds[i as int]));
            let p = ten_to(i as nat);
            assert(ten_to((i + 1) as nat) == 10 * p);
            assert(low * p + high * (10 * p) == 2 * (ds[i as int] * p) + carry * p)
                by (nonlinear_arith)
                requires
                    low + 10 * high == 2 * ds[i as int] + carry,
            ;
        }
        out.push(low);
        carry = high;
        i = i + 1;
    }
    assert(ds@.take(ds.len() as int) =~= ds@);
    if carry > 0 {
        proof {
            lemma_value_push(out@, carry);
        }
        out.push(carry);
    }
    out
}

/// Digits written out from the top.
fn digits_to_string(ds: &Vec<u8>) -> (text: String)
    requires
        all_digits(ds@),
    ensures
        text@ == digits_text(ds@),
{
    let mut text = String::new();
    let mut i: usize = ds.len();
    while i > 0
        invariant
            i <= ds.len(),
            all_digits(ds@),
            text@ == digits_text(ds@).take(ds.len() - i),
        decreases i,
    {
        i = i - 1;
        text.append(digit_str(ds[i]));
        assert(text@ =~= digits_text(ds@).take(ds.len() - i));
    }
    assert(digits_text(ds@).take(ds.len() as int) =~= digits_text(ds@));
    text
}

/// A number written out in decimal.
pub fn decimal_text(n: u64) -> (text: String)
    ensures
        text@ == decimal(n as nat),
{
    let ds = digits_of(n);
    proof {
        lemma_canonical_text(ds@);
    }
    digits_to_string(&ds)
}

/// The size of an integer without its sign, written out in decimal.
pub fn magnitude_text(i: i64) -> (text: String)
    ensures
        text@ == decimal(magnitude(i as int)),
{
    if i < 0 {
        decimal_text(((-(i + 1)) as u64) + 1)
    } else {
        decimal_text(i as u64)
    }
}

/// An integer written out in decimal, with its sign if it is negative.
pub fn signed_decimal_text(i: i64) -> (text: String)
    ensures
        text@ == signed_decimal(i as int),
{
    if i < 0 {
        let digits = magnitude_text(i);
        let mut text = String::from_str("-");
        proof {
            reveal_strlit("-");
            assert("-"@ =~= seq!['-']);
        }
        text.append(digits.as_str());
        text
    } else {
        decimal_text(i as u64)
    }
}

/// The product of `m` and two to the power `k`, written out in decimal. The
/// product may be far larger than any machine integer.
pub fn scaled_decimal_text(m: u64, k: u32) -> (text: String)
    ensures
        text@ == decimal(m as nat * two_to(k as nat)),
{
    let mut ds = digits_of(m);
    let mut j: u32 = 0;
    proof {
        let one = two_to(0);
        assert(one == 1);
        assert(m as nat * one == m) by (nonlinear_arith)
            requires
                one == 1,
        ;
    }
    while j < k
        invariant
            j <= k,
            is_canonical(ds@),
            digits_value(ds@) == m as nat * two_to(j as nat),
        decreases k - j,
    {
        proof {
            let p = two_to(j as nat);
            assert(two_to((j + 1) as nat) == 2 * p);
            assert(2 * (m as nat * p) == m as nat * (2 * p)) by (nonlinear_arith);
        }
        ds = double_digits(&ds);
        j = j + 1;
    }
    proof {
        lemma_canonical_text(ds@);
    }
    digits_to_string(&ds)
}

} // verus!
