//! Decimal digits and other operations on text that the coordinate, query
//! and tag code share.

use vstd::prelude::*;

verus! {

/// Whether two strings hold the same characters.
pub fn same_text(a: &str, b: &str) -> (r: bool)
    ensures
        r == (a@ == b@),
{
    let n = a.unicode_len();
    if n != b.unicode_len() {
        return false;
    }
    let mut i: usize = 0;
    while i < n
        invariant
            n == a@.len(),
            n == b@.len(),
            i <= n,
            forall|j: int| 0 <= j < i ==> a@[j] == b@[j],
        decreases n - i,
    {
        if a.get_char(i) != b.get_char(i) {
            return false;
        }
        i = i + 1;
    }
    assert(a@ =~= b@);
    true
}


/// The character of a decimal digit.
pub open spec fn digit_char(d: nat) -> char {
    if d == 0 { '0' }
    else if d == 1 { '1' }
    else if d == 2 { '2' }
    else if d == 3 { '3' }
    else if d == 4 { '4' }
    else if d == 5 { '5' }
    else if d == 6 { '6' }
    else if d == 7 { '7' }
    else if d == 8 { '8' }
    else { '9' }
}

/// The decimal digits of `n`, without leading zeros (`"0"` for zero).
pub open spec fn decimal(n: nat) -> Seq<char>
    decreases n,
{
    if n < 10 {
        seq![digit_char(n)]
    } else {
        decimal(n / 10).push(digit_char(n % 10))
    }
}

/// The last `width` decimal digits of `n`, with leading zeros.
pub open spec fn padded(n: nat, width: nat) -> Seq<char>
    decreases width,
{
    if width == 0 {
        seq![]
    } else {
        padded(n / 10, (width - 1) as nat).push(digit_char(n % 10))
    }
}

/// The one-character string of a decimal digit.
fn digit_str(d: u64) -> (r: &'static str)
    requires
        d < 10,
    ensures
        r@ == seq![digit_char(d as nat)],
{
    proof {
        reveal_strlit("0");
        reveal_strlit("1");
        reveal_strlit("2");
        reveal_strlit("3");
        reveal_strlit("4");
        reveal_strlit("5");
        reveal_strlit("6");
        reveal_strlit("7");
        reveal_strlit("8");
        reveal_strlit("9");
    }
    let r = if d == 0 { "0" }
    else if d == 1 { "1" }
    else if d == 2 { "2" }
    else if d == 3 { "3" }
    else if d == 4 { "4" }
    else if d == 5 { "5" }
    else if d == 6 { "6" }
    else if d == 7 { "7" }
    else if d == 8 { "8" }
    else { "9" };
    assert(r@ =~= seq![digit_char(d as nat)]);
    r
}

/// Appends the decimal digits of `n` to `out`.
pub fn push_decimal(out: &mut String, n: u64)
    ensures
        final(out)@ == old(out)@ + decimal(n as nat),
    decreases n,
{
    if n >= 10 {
        push_decimal(out, n / 10);
    }
    out.append(digit_str(n % 10));
    assert(final(out)@ =~= old(out)@ + decimal(n as nat));
}

/// Appends the last `width` decimal digits of `n` to `out`, with leading zeros.
pub fn push_padded(out: &mut String, n: u64, width: u64)
    ensures
        final(out)@ == old(out)@ + padded(n as nat, width as nat),
    decreases width,
{
    if width > 0 {
        push_padded(out, n / 10, width - 1);
        out.append(digit_str(n % 10));
    }
    assert(final(out)@ =~= old(out)@ + padded(n as nat, width as nat));
}


/// Ten to the power `k`.
pub open spec fn pow10(k: nat) -> nat
    decreases k,
{
    if k == 0 {
        1
    } else {
        10 * pow10((k - 1) as nat)
    }
}

/// A number below `10^k` has at most `k` decimal digits.
pub proof fn lemma_decimal_len(n: nat, k: nat)
    requires
        1 <= k,
        n < pow10(k),
    ensures
        decimal(n).len() <= k,
    decreases k,
{
    if n >= 10 {
        let p = pow10((k - 1) as nat);
        if k == 1 {
            assert(pow10(0) == 1);
        } else {
            assert(n / 10 < p) by (nonlinear_arith)
                requires
                    n < 10 * p,
            ;
            lemma_decimal_len(n / 10, (k - 1) as nat);
        }
    }
}

/// A 64-bit number has at most twenty decimal digits.
pub proof fn lemma_decimal_len_u64(n: u64)
    ensures
        decimal(n as nat).len() <= 20,
{
    reveal_with_fuel(pow10, 21);
    lemma_decimal_len(n as nat, 20);
}

/// The padded digits of a number are exactly as many as asked for.
pub proof fn lemma_padded_len(n: nat, width: nat)
    ensures
        padded(n, width).len() == width,
    decreases width,
{
    if width > 0 {
        lemma_padded_len(n / 10, (width - 1) as nat);
    }
}


/// Whether a character is a decimal digit.
pub open spec fn is_digit(ch: char) -> bool {
    ch == '0' || ch == '1' || ch == '2' || ch == '3' || ch == '4' || ch == '5' || ch == '6'
        || ch == '7' || ch == '8' || ch == '9'
}

/// The value of a decimal digit.
pub open spec fn digit_value(ch: char) -> nat {
    if ch == '1' { 1 }
    else if ch == '2' { 2 }
    else if ch == '3' { 3 }
    else if ch == '4' { 4 }
    else if ch == '5' { 5 }
    else if ch == '6' { 6 }
    else if ch == '7' { 7 }
    else if ch == '8' { 8 }
    else if ch == '9' { 9 }
    else { 0 }
}

/// Whether every character of `ds` is a decimal digit.
pub open spec fn all_digits(ds: Seq<char>) -> bool {
    forall|i: int| 0 <= i < ds.len() ==> is_digit(#[trigger] ds[i])
}

/// The number that the decimal digits `ds` write.
pub open spec fn digits_value(ds: Seq<char>) -> nat
    decreases ds.len(),
{
    if ds.len() == 0 {
        0
    } else {
        digits_value(ds.drop_last()) * 10 + digit_value(ds.last())
    }
}

/// The character of a digit is a digit of that value.
pub proof fn lemma_digit_char(d: nat)
    requires
        d < 10,
    ensures
        is_digit(digit_char(d)),
        digit_value(digit_char(d)) == d,
{
    assert(d == 0 || d == 1 || d == 2 || d == 3 || d == 4 || d == 5 || d == 6 || d == 7 || d == 8
        || d == 9);
}

/// A digit is the character of its value.
pub proof fn lemma_digit_value(ch: char)
    requires
        is_digit(ch),
    ensures
        digit_value(ch) < 10,
        digit_char(digit_value(ch)) == ch,
{
}

/// The decimal digits of a number are digits, the first of them `'0'` only
/// for zero, and they write that number.
pub proof fn lemma_decimal_digits(n: nat)
    ensures
        decimal(n).len() > 0,
        all_digits(decimal(n)),
        digits_value(decimal(n)) == n,
        decimal(n)[0] == '0' ==> n == 0 && decimal(n).len() == 1,
    decreases n,
{
    lemma_digit_char(n % 10);
    let d = decimal(n);
    if n >= 10 {
        lemma_decimal_digits(n / 10);
        assert(d.drop_last() =~= decimal(n / 10));
        assert(d.last() == digit_char(n % 10));
        assert(d[0] == decimal(n / 10)[0]);
        assert(n == (n / 10) * 10 + n % 10) by (nonlinear_arith);
        assert(digits_value(d) == digits_value(decimal(n / 10)) * 10 + digit_value(d.last()));
    } else {
        lemma_digit_char(n);
        assert(d.drop_last() =~= Seq::<char>::empty());
        assert(d.last() == digit_char(n));
        assert(digits_value(d) == digits_value(d.drop_last()) * 10 + digit_value(d.last()));
    }
}

/// Digits with no leading zero are the decimal digits of the number they write.
pub proof fn lemma_digits_decimal(ds: Seq<char>)
    requires
        ds.len() > 0,
        all_digits(ds),
        ds.len() == 1 || ds[0] != '0',
    ensures
        decimal(digits_value(ds)) == ds,
    decreases ds.len(),
{
    if ds.len() == 1 {
        assert(ds.drop_last() =~= Seq::<char>::empty());
        assert(is_digit(ds[0]));
        lemma_digit_value(ds[0]);
        assert(ds.last() == ds[0]);
        assert(digits_value(ds) == digits_value(ds.drop_last()) * 10 + digit_value(ds.last()));
        assert(digits_value(ds) == digit_value(ds[0]));
        assert(decimal(digits_value(ds)) =~= ds);
    } else {
        let init = ds.drop_last();
        assert(init[0] == ds[0]);
        assert(is_digit(ds.last()));
        lemma_digit_value(ds.last());
        lemma_digits_positive(init);
        lemma_digits_decimal(init);
        let v = digits_value(ds);
        let w = digits_value(init);
        let d = digit_value(ds.last());
        assert(v == w * 10 + d);
        assert(v / 10 == w && v % 10 == d) by (nonlinear_arith)
            requires
                v == w * 10 + d,
                d < 10,
        ;
        assert(decimal(v) =~= ds);
    }
}

/// Digits that do not start with `'0'` write a positive number.
pub proof fn lemma_digits_positive(ds: Seq<char>)
    requires
        ds.len() > 0,
        all_digits(ds),
        ds[0] != '0',
    ensures
        digits_value(ds) > 0,
    decreases ds.len(),
{
    if ds.len() > 1 {
        let init = ds.drop_last();
        assert(init[0] == ds[0]);
        lemma_digits_positive(init);
    } else {
        assert(is_digit(ds[0]));
    }
}

/// `width` digits are the padded digits of the number they write, and
/// that number is below `10^width`.
pub proof fn lemma_digits_padded(ds: Seq<char>)
    requires
        all_digits(ds),
    ensures
        padded(digits_value(ds), ds.len()) == ds,
        digits_value(ds) < pow10(ds.len()),
    decreases ds.len(),
{
    if ds.len() > 0 {
        let init = ds.drop_last();
        assert(is_digit(ds.last()));
        lemma_digit_value(ds.last());
        lemma_digits_padded(init);
        let v = digits_value(ds);
        let w = digits_value(init);
        let d = digit_value(ds.last());
        let p = pow10(init.len());
        assert(v / 10 == w && v % 10 == d) by (nonlinear_arith)
            requires
                v == w * 10 + d,
                d < 10,
        ;
        assert(v < 10 * p) by (nonlinear_arith)
            requires
                v == w * 10 + d,
                d < 10,
                w < p,
        ;
        assert(padded(v, ds.len()) =~= ds);
    } else {
        assert(padded(digits_value(ds), 0) =~= ds);
    }
}

/// The padded digits of a number are digits.
pub proof fn lemma_padded_digits(n: nat, width: nat)
    ensures
        all_digits(padded(n, width)),
    decreases width,
{
    if width > 0 {
        lemma_padded_digits(n / 10, (width - 1) as nat);
        lemma_digit_char(n % 10);
    }
}

/// A prefix of digits writes at most what the whole digits write.
pub proof fn lemma_digits_prefix(ds: Seq<char>, k: int)
    requires
        0 <= k <= ds.len(),
    ensures
        digits_value(ds.subrange(0, k)) <= digits_value(ds),
    decreases ds.len(),
{
    if k < ds.len() {
        assert(ds.drop_last().subrange(0, k) =~= ds.subrange(0, k));
        lemma_digits_prefix(ds.drop_last(), k);
    } else {
        assert(ds.subrange(0, k) =~= ds);
    }
}

/// The value of a decimal digit, where `ch` is one.
fn digit_of(ch: char) -> (r: Option<u64>)
    ensures
        match r {
            Some(d) => is_digit(ch) && d == digit_value(ch),
            None => !is_digit(ch),
        },
{
    if ch == '0' { Some(0) }
    else if ch == '1' { Some(1) }
    else if ch == '2' { Some(2) }
    else if ch == '3' { Some(3) }
    else if ch == '4' { Some(4) }
    else if ch == '5' { Some(5) }
    else if ch == '6' { Some(6) }
    else if ch == '7' { Some(7) }
    else if ch == '8' { Some(8) }
    else if ch == '9' { Some(9) }
    else { None }
}

/// The number that the characters of `s` from `from` to `to` write, where
/// they are all digits and the number fits in 64 bits.
pub fn parse_digits(s: &str, from: usize, to: usize) -> (r: Option<u64>)
    requires
        from <= to <= s@.len(),
    ensures
        match r {
            Some(v) => all_digits(s@.subrange(from as int, to as int)) && v == digits_value(
                s@.subrange(from as int, to as int),
            ),
            None => !all_digits(s@.subrange(from as int, to as int)) || digits_value(
                s@.subrange(from as int, to as int),
            ) > u64::MAX,
        },
{
    let ghost ds = s@.subrange(from as int, to as int);
    let mut v: u64 = 0;
    let mut i: usize = from;
    while i < to
        invariant
            from <= i <= to <= s@.len(),
            ds == s@.subrange(from as int, to as int),
            all_digits(ds.subrange(0, i - from)),
            v == digits_value(ds.subrange(0, i - from)),
        decreases to - i,
    {
        let ghost k = i - from;
        assert(ds.subrange(0, k + 1).drop_last() =~= ds.subrange(0, k));
        let ch = s.get_char(i);
        assert(ch == ds[k]);
        match digit_of(ch) {
            None => {
                assert(!is_digit(ds[k]));
                return None;
            },
            Some(d) => {
                if v > (u64::MAX - d) / 10 {
                    assert(digits_value(ds.subrange(0, k + 1)) == v * 10 + d);
                    assert(v * 10 + d > u64::MAX) by (nonlinear_arith)
                        requires
                            v > (u64::MAX - d) / 10,
                            d < 10,
                    ;
                    proof {
                        lemma_digits_prefix(ds, k + 1);
                    }
                    return None;
                }
                assert(v * 10 + d <= u64::MAX) by (nonlinear_arith)
                    requires
                        v <= (u64::MAX - d) / 10,
                        d < 10,
                ;
                v = v * 10 + d;
                assert(all_digits(ds.subrange(0, k + 1)));
            },
        }
        i = i + 1;
    }
    assert(ds.subrange(0, to - from) =~= ds);
    Some(v)
}

} // verus!
