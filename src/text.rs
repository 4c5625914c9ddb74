//! Decimal rendering of integers, stated over character sequences.

use vstd::prelude::*;

verus! {

/// The character for a decimal digit.
pub open spec fn digit_char(d: nat) -> char {
    if d == 0 {
        '0'
    } else if d == 1 {
        '1'
    } else if d == 2 {
        '2'
    } else if d == 3 {
        '3'
    } else if d == 4 {
        '4'
    } else if d == 5 {
        '5'
    } else if d == 6 {
        '6'
    } else if d == 7 {
        '7'
    } else if d == 8 {
        '8'
    } else {
        '9'
    }
}

/// The shortest decimal text of `n`.
pub open spec fn decimal(n: nat) -> Seq<char>
    decreases n,
{
    if n < 10 {
        seq![digit_char(n)]
    } else {
        decimal(n / 10).push(digit_char(n % 10))
    }
}

/// `c` repeated `k` times.
pub open spec fn repeat(c: char, k: nat) -> Seq<char> {
    Seq::new(k, |i: int| c)
}

/// The decimal text of `n`, with leading zeros up to `width` characters.
pub open spec fn zero_padded(n: nat, width: nat) -> Seq<char> {
    let d = decimal(n);
    if d.len() >= width {
        d
    } else {
        repeat('0', (width - d.len()) as nat) + d
    }
}

fn digit_str(d: u64) -> (r: &'static str)
    requires
        d < 10,
    ensures
        r@ == seq![digit_char(d as nat)],
{
    if d == 0 {
        proof { reveal_strlit("0"); }
        "0"
    } else if d == 1 {
        proof { reveal_strlit("1"); }
        "1"
    } else if d == 2 {
        proof { reveal_strlit("2"); }
        "2"
    } else if d == 3 {
        proof { reveal_strlit("3"); }
        "3"
    } else if d == 4 {
        proof { reveal_strlit("4"); }
        "4"
    } else if d == 5 {
        proof { reveal_strlit("5"); }
        "5"
    } else if d == 6 {
        proof { reveal_strlit("6"); }
        "6"
    } else if d == 7 {
        proof { reveal_strlit("7"); }
        "7"
    } else if d == 8 {
        proof { reveal_strlit("8"); }
        "8"
    } else {
        proof { reveal_strlit("9"); }
        "9"
    }
}

/// Appends the decimal text of `n` to `s`.
pub fn push_decimal(s: &mut String, n: u64)
    ensures
        final(s)@ == old(s)@ + decimal(n as nat),
    decreases n,
{
    if n < 10 {
        s.append(digit_str(n));
    } else {
        push_decimal(s, n / 10);
        s.append(digit_str(n % 10));
        assert(old(s)@ + decimal(n as nat) =~= old(s)@ + decimal((n / 10) as nat) + seq![
            digit_char((n % 10) as nat),
        ]);
    }
}

/// The decimal text of `n`.
pub fn decimal_text(n: u64) -> (r: String)
    ensures
        r@ == decimal(n as nat),
{
    let mut s = String::new();
    push_decimal(&mut s, n);
    assert(s@ =~= decimal(n as nat));
    s
}

/// The number of decimal digits of `n`.
pub proof fn lemma_decimal_len(n: nat)
    ensures
        decimal(n).len() >= 1,
        n < 10 ==> decimal(n).len() == 1,
        10 <= n < 100 ==> decimal(n).len() == 2,
        100 <= n < 1000 ==> decimal(n).len() == 3,
        1000 <= n < 10000 ==> decimal(n).len() == 4,
    decreases n,
{
    if n >= 10 {
        lemma_decimal_len(n / 10);
    }
}

/// Appends the decimal text of `n` to `s`, with leading zeros up to
/// `width` characters.
pub fn push_zero_padded(s: &mut String, n: u64, width: u64)
    requires
        width <= 20,
    ensures
        final(s)@ == old(s)@ + zero_padded(n as nat, width as nat),
{
    let digits = decimal_text(n);
    let len = digits.as_str().unicode_len() as u64;
    let mut k: u64 = len;
    while k < width
        invariant
            len == decimal(n as nat).len(),
            len <= k,
            k <= width || k == len,
            s@ == old(s)@ + repeat('0', (k - len) as nat),
        decreases width - k,
    {
        proof { reveal_strlit("0"); }
        s.append("0");
        k = k + 1;
        assert(s@ =~= old(s)@ + repeat('0', (k - len) as nat));
    }
    s.append(digits.as_str());
    if len >= width {
        assert(repeat('0', 0) =~= Seq::<char>::empty());
        assert(s@ =~= old(s)@ + zero_padded(n as nat, width as nat));
    } else {
        assert(s@ =~= old(s)@ + zero_padded(n as nat, width as nat));
    }
}

/// A decimal digit character.
pub open spec fn is_digit(c: char) -> bool {
    '0' <= c && c <= '9'
}

/// Decimal text consists of digits only; with leading zeros it is exactly
/// as wide as asked where the number fits.
pub proof fn lemma_zero_padded_digits(n: nat, width: nat)
    requires
        decimal(n).len() <= width,
    ensures
        zero_padded(n, width).len() == width,
        forall|i: int| 0 <= i < width ==> is_digit(#[trigger] zero_padded(n, width)[i]),
{
    lemma_decimal_digits(n);
    let d = decimal(n);
    let z = repeat('0', (width - d.len()) as nat);
    assert forall|i: int| 0 <= i < width implies is_digit(#[trigger] zero_padded(n, width)[i]) by {
        if d.len() < width {
            if i < z.len() {
                assert(zero_padded(n, width)[i] == z[i]);
            } else {
                assert(zero_padded(n, width)[i] == d[i - z.len()]);
            }
        }
    }
}

/// Every character of `decimal(n)` is a digit.
pub proof fn lemma_decimal_digits(n: nat)
    ensures
        forall|i: int| 0 <= i < decimal(n).len() ==> is_digit(#[trigger] decimal(n)[i]),
    decreases n,
{
    if n >= 10 {
        lemma_decimal_digits(n / 10);
        let p = decimal(n / 10);
        assert forall|i: int| 0 <= i < decimal(n).len() implies is_digit(#[trigger] decimal(n)[i]) by {
            if i < p.len() {
                assert(decimal(n)[i] == p[i]);
            }
        }
    }
}

} // verus!
