//! Coordinates in decimal degrees, held exactly as a request URL writes them.

use vstd::prelude::*;

use crate::text::{
    all_digits, decimal, digits_value, lemma_decimal_digits, lemma_decimal_len_u64,
    lemma_digits_decimal, lemma_digits_padded, lemma_padded_digits, lemma_padded_len, padded,
    parse_digits, pow10, push_decimal, push_padded,
};

verus! {

/// The number of digits after the decimal point of a coordinate.
pub const FRACTION_DIGITS: u64 = 16;

/// Ten to the power `FRACTION_DIGITS`: one unit of the whole part in units of the fraction.
pub const FRACTION_SCALE: u64 = 10_000_000_000_000_000;

/// A coordinate in decimal degrees: a sign, a whole part and sixteen
/// fractional digits, which is how a request URL writes it.
///
/// Nothing bounds the value: a latitude of 300 degrees is kept as it is.
#[derive(Clone, Copy, Debug, PartialEq, Eq, Hash)]
pub struct Coordinate {
    negative: bool,
    whole: u64,
    fraction: u64,
}

impl Coordinate {
    /// Whether a minus sign is written before the number.
    pub closed spec fn spec_negative(&self) -> bool {
        self.negative
    }

    /// The digits before the decimal point, as a number.
    pub closed spec fn spec_whole(&self) -> nat {
        self.whole as nat
    }

    /// The sixteen digits after the decimal point, as a number.
    pub closed spec fn spec_fraction(&self) -> nat {
        self.fraction as nat
    }

    #[verifier::type_invariant]
    spec fn fraction_fits(&self) -> bool {
        self.fraction < FRACTION_SCALE
    }

    /// The text of the coordinate: an optional minus sign, the whole part
    /// without leading zeros, a point, and exactly sixteen fractional digits.
    pub open spec fn fixed_text(&self) -> Seq<char> {
        (if self.spec_negative() { seq!['-'] } else { seq![] }) + decimal(self.spec_whole())
            + seq!['.'] + padded(self.spec_fraction(), FRACTION_DIGITS as nat)
    }

    /// The text of a coordinate is at most 38 characters long.
    pub proof fn lemma_fixed_text_len(&self)
        ensures
            self.fixed_text().len() <= 38,
    {
        lemma_decimal_len_u64(self.whole);
        lemma_padded_len(self.fraction as nat, FRACTION_DIGITS as nat);
    }

    /// The coordinate with the given sign, whole part and fractional digits;
    /// `None` where `fraction` has more than sixteen digits.
    pub fn new(negative: bool, whole: u64, fraction: u64) -> (r: Option<Coordinate>)
        ensures
            match r {
                Some(c) => c.spec_negative() == negative && c.spec_whole() == whole
                    && c.spec_fraction() == fraction,
                None => fraction >= FRACTION_SCALE,
            },
    {
        if fraction < FRACTION_SCALE {
            Some(Coordinate { negative, whole, fraction })
        } else {
            None
        }
    }

    /// Whether a minus sign is written before the number.
    pub fn is_negative(&self) -> (r: bool)
        ensures
            r == self.spec_negative(),
    {
        self.negative
    }

    /// The digits before the decimal point, as a number.
    pub fn whole(&self) -> (r: u64)
        ensures
            r == self.spec_whole(),
    {
        self.whole
    }

    /// The sixteen digits after the decimal point, as a number.
    pub fn fraction(&self) -> (r: u64)
        ensures
            r == self.spec_fraction(),
            r < FRACTION_SCALE,
    {
        proof {
            use_type_invariant(self);
        }
        self.fraction
    }

    /// Appends the text of the coordinate to `out`.
    pub fn write_fixed(&self, out: &mut String)
        ensures
            final(out)@ == old(out)@ + self.fixed_text(),
    {
        if self.negative {
            out.append("-");
        }
        push_decimal(out, self.whole);
        out.append(".");
        push_padded(out, self.fraction, FRACTION_DIGITS);
        proof {
            reveal_strlit("-");
            reveal_strlit(".");
        }
        assert(final(out)@ =~= old(out)@ + self.fixed_text());
    }

    /// The text of the coordinate.
    pub fn to_fixed_string(&self) -> (r: String)
        ensures
            r@ == self.fixed_text(),
    {
        let mut r = String::new();
        self.write_fixed(&mut r);
        r
    }

    /// Reads a coordinate from its text, as `to_fixed_string` writes it;
    /// `None` where `s` is the text of no coordinate.
    pub fn from_fixed_str(s: &str) -> (r: Option<Coordinate>)
        ensures
            match r {
                Some(c) => c.fixed_text() == s@,
                None => forall|c: Coordinate| c.fixed_text() != s@,
            },
    {
        let n = s.unicode_len();
        let negative = n > 0 && s.get_char(0) == '-';
        let start: usize = if negative { 1 } else { 0 };
        if n < start + 18 {
            proof {
                lemma_no_text_of(s@);
            }
            return None;
        }
        let point = n - 17;
        if s.get_char(point) != '.' || (point - start > 1 && s.get_char(start) == '0') {
            proof {
                lemma_no_text_of(s@);
            }
            return None;
        }
        let whole = match parse_digits(s, start, point) {
            Some(v) => v,
            None => {
                proof {
                    lemma_no_text_of(s@);
                }
                return None;
            },
        };
        let fraction = match parse_digits(s, point + 1, n) {
            Some(v) => v,
            None => {
                proof {
                    let f = s@.subrange(point + 1, n as int);
                    if all_digits(f) {
                        lemma_digits_padded(f);
                        reveal_with_fuel(pow10, 17);
                    }
                    lemma_no_text_of(s@);
                }
                return None;
            },
        };
        let ghost w = s@.subrange(start as int, point as int);
        let ghost f = s@.subrange(point + 1, n as int);
        proof {
            lemma_digits_decimal(w);
            lemma_digits_padded(f);
            reveal_with_fuel(pow10, 17);
        }
        let c = Coordinate { negative, whole, fraction };
        assert(s@ =~= (if negative { seq!['-'] } else { seq![] }) + w + seq!['.'] + f);
        assert(c.fixed_text() == s@);
        Some(c)
    }
}

/// How many characters of `s` a sign takes.
spec fn sign_len(s: Seq<char>) -> int {
    if s.len() > 0 && s[0] == '-' {
        1
    } else {
        0
    }
}

/// Whether `s` has the shape of a coordinate's text: a sign where there
/// is one, digits with no leading zero that fit in 64 bits, a point, and
/// sixteen digits.
spec fn fixed_shape(s: Seq<char>) -> bool {
    let start = sign_len(s);
    let point = s.len() - 17;
    &&& s.len() >= start + 18
    &&& s[point] == '.'
    &&& (point - start == 1 || s[start] != '0')
    &&& all_digits(s.subrange(start, point))
    &&& digits_value(s.subrange(start, point)) <= u64::MAX
    &&& all_digits(s.subrange(point + 1, s.len() as int))
}

/// The text of every coordinate has the shape of one.
proof fn lemma_fixed_text_shape(c: Coordinate)
    ensures
        fixed_shape(c.fixed_text()),
{
    let t = c.fixed_text();
    let d = decimal(c.whole as nat);
    let p = padded(c.fraction as nat, FRACTION_DIGITS as nat);
    let sign: Seq<char> = if c.negative { seq!['-'] } else { seq![] };
    lemma_decimal_digits(c.whole as nat);
    lemma_padded_len(c.fraction as nat, FRACTION_DIGITS as nat);
    lemma_padded_digits(c.fraction as nat, FRACTION_DIGITS as nat);
    assert(t == sign + d + seq!['.'] + p);
    let start = sign.len() as int;
    if !c.negative {
        assert(t[0] == d[0]);
        assert(all_digits(d));
        assert(crate::text::is_digit(d[0]));
    }
    assert(sign_len(t) == start);
    let point = start + d.len();
    assert(t.len() == point + 17);
    assert(t[point] == '.');
    assert(t.subrange(start, point) =~= d);
    assert(t.subrange(point + 1, t.len() as int) =~= p);
    if point - start != 1 {
        assert(t[start] == d[0]);
    }
}

/// A text without the shape of a coordinate's text is the text of no
/// coordinate.
proof fn lemma_no_text_of(s: Seq<char>)
    requires
        !fixed_shape(s),
    ensures
        forall|c: Coordinate| c.fixed_text() != s,
{
    assert forall|c: Coordinate| c.fixed_text() != s by {
        lemma_fixed_text_shape(c);
    }
}

} // verus!
