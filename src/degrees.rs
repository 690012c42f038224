//! Coordinates in decimal degrees, held as an exact decimal number.

use crate::text::{decimal_digits, push_char};
use vstd::prelude::*;
use vstd::string::StrSliceExecFns;

verus! {

/// An angle in decimal degrees: `mantissa × 10^-scale`.
///
/// `46.3123975` is `Degrees { mantissa: 463123975, scale: 7 }`.
#[derive(Clone, Copy, Debug, PartialEq, Eq)]
pub struct Degrees {
    pub mantissa: i64,
    pub scale: u8,
}

/// The absolute value of an integer.
pub open spec fn abs(m: int) -> nat {
    if m < 0 {
        (-m) as nat
    } else {
        m as nat
    }
}

/// The same decimal number with trailing fractional zeros removed.
pub open spec fn normalized(m: int, s: nat) -> (int, nat)
    decreases s,
{
    if s > 0 && m % 10 == 0 {
        normalized(m / 10, (s - 1) as nat)
    } else {
        (m, s)
    }
}

/// `digits` preceded by as many `0`s as make it `width` characters long.
pub open spec fn zero_padded(digits: Seq<char>, width: nat) -> Seq<char> {
    if digits.len() < width {
        Seq::new((width - digits.len()) as nat, |i: int| '0') + digits
    } else {
        digits
    }
}

/// `m × 10^-s` written out with exactly `s` fractional digits (none and no
/// point when `s` is zero), with a leading `-` when negative.
pub open spec fn fixed_point_text(m: int, s: nat) -> Seq<char> {
    let sign = if m < 0 { seq!['-'] } else { Seq::empty() };
    let p = zero_padded(decimal_digits(abs(m)), s + 1);
    if s == 0 {
        sign + p
    } else {
        sign + p.subrange(0, p.len() - s) + seq!['.'] + p.subrange(p.len() - s, p.len() as int)
    }
}

/// Shortest decimal text of `m × 10^-s`: `46.2`, `6`, `-0.5`.
pub open spec fn decimal_text(m: int, s: nat) -> Seq<char> {
    fixed_point_text(normalized(m, s).0, normalized(m, s).1)
}

/// An ASCII decimal digit.
pub open spec fn is_digit(c: char) -> bool {
    '0' <= c && c <= '9'
}

/// The number that a run of decimal digits writes.
pub open spec fn digits_value(ds: Seq<char>) -> int
    decreases ds.len(),
{
    if ds.len() == 0 {
        0
    } else {
        digits_value(ds.drop_last()) * 10 + (ds.last() as u32 - 48)
    }
}

/// Where the run of digits that starts at `from` ends.
pub open spec fn digit_run(s: Seq<char>, from: int) -> int
    decreases s.len() - from,
{
    if 0 <= from < s.len() && is_digit(s[from]) {
        digit_run(s, from + 1)
    } else {
        from
    }
}

/// 1 when the text starts with `-`, else 0.
pub open spec fn sign_len(s: Seq<char>) -> int {
    if s.len() > 0 && s[0] == '-' {
        1
    } else {
        0
    }
}

/// Where the integer part of a decimal text ends.
pub open spec fn whole_end(s: Seq<char>) -> int {
    digit_run(s, sign_len(s))
}

/// Whether anything follows the integer part.
pub open spec fn has_fraction(s: Seq<char>) -> bool {
    whole_end(s) < s.len()
}

/// A decimal text: an optional `-`, one or more digits, and optionally a
/// `.` followed by one or more digits; nothing else.
pub open spec fn is_decimal_text(s: Seq<char>) -> bool {
    whole_end(s) > sign_len(s) && (!has_fraction(s) || (s[whole_end(s)] == '.' && whole_end(s)
        + 1 < s.len() && digit_run(s, whole_end(s) + 1) == s.len()))
}

/// The number of digits after the point.
pub open spec fn fraction_len(s: Seq<char>) -> int {
    if has_fraction(s) {
        s.len() - whole_end(s) - 1
    } else {
        0
    }
}

/// All the digits of a decimal text, the point left out.
pub open spec fn all_digits_of(s: Seq<char>) -> Seq<char> {
    s.subrange(sign_len(s), whole_end(s)) + if has_fraction(s) {
        s.subrange(whole_end(s) + 1, s.len() as int)
    } else {
        Seq::empty()
    }
}

/// The integer that a decimal text writes once its point is removed.
pub open spec fn decimal_mantissa(s: Seq<char>) -> int {
    if sign_len(s) == 1 {
        -digits_value(all_digits_of(s))
    } else {
        digits_value(all_digits_of(s))
    }
}

/// Largest magnitude a mantissa can have (that of `i64::MIN`).
pub const MAGNITUDE_LIMIT: u64 = 0x8000_0000_0000_0000;

proof fn lemma_decimal_digits_len(n: nat)
    ensures
        decimal_digits(n).len() >= 1,
    decreases n,
{
    if n >= 10 {
        lemma_decimal_digits_len(n / 10);
    }
}

/// Decimal digits of `n`, most significant first.
fn decimal_chars(n: u64) -> (r: Vec<char>)
    ensures
        r@ == decimal_digits(n as nat),
    decreases n,
{
    if n < 10 {
        let mut r: Vec<char> = Vec::new();
        r.push(((48 + n) as u8) as char);
        assert(r@ =~= decimal_digits(n as nat));
        r
    } else {
        let mut r = decimal_chars(n / 10);
        r.push(((48 + n % 10) as u8) as char);
        r
    }
}

/// `digits` preceded by as many `0`s as make it `width` characters long.
fn zero_pad(digits: &Vec<char>, width: usize) -> (r: Vec<char>)
    ensures
        r@ == zero_padded(digits@, width as nat),
{
    let mut padded: Vec<char> = Vec::new();
    if digits.len() < width {
        let missing: usize = width - digits.len();
        while padded.len() < missing
            invariant
                padded.len() <= missing,
                padded@ == Seq::new(padded.len() as nat, |i: int| '0'),
            decreases missing - padded.len(),
        {
            padded.push('0');
            assert(padded@ =~= Seq::new(padded.len() as nat, |i: int| '0'));
        }
    }
    let ghost zeros = padded@;
    let mut i: usize = 0;
    while i < digits.len()
        invariant
            i <= digits.len(),
            padded@ == zeros + digits@.subrange(0, i as int),
        decreases digits.len() - i,
    {
        padded.push(digits[i]);
        assert(padded@ =~= zeros + digits@.subrange(0, i + 1));
        i = i + 1;
    }
    assert(digits@.subrange(0, digits.len() as int) =~= digits@);
    assert(padded@ =~= zero_padded(digits@, width as nat));
    padded
}

/// Whether `c` is an ASCII decimal digit.
fn is_ascii_digit(c: char) -> (r: bool)
    ensures
        r == is_digit(c),
{
    '0' <= c && c <= '9'
}

/// Takes one more digit `c` into `acc`, the value of the digits `ds` read so
/// far; `big` records that the value has passed [`MAGNITUDE_LIMIT`].
fn accumulate(acc: &mut u64, big: &mut bool, c: char, ds: Ghost<Seq<char>>)
    requires
        is_digit(c),
        *old(big) ==> digits_value(ds@) > MAGNITUDE_LIMIT,
        !*old(big) ==> *old(acc) == digits_value(ds@) && *old(acc) <= MAGNITUDE_LIMIT,
    ensures
        *final(big) ==> digits_value(ds@.push(c)) > MAGNITUDE_LIMIT,
        !*final(big) ==> *final(acc) == digits_value(ds@.push(c)) && *final(acc)
            <= MAGNITUDE_LIMIT,
{
    assert(ds@.push(c).drop_last() =~= ds@);
    let d: u64 = (c as u32 - 48) as u64;
    if !*big {
        if *acc > (MAGNITUDE_LIMIT - d) / 10 {
            *big = true;
        } else {
            *acc = *acc * 10 + d;
        }
    }
}

impl Degrees {
    /// The angle `mantissa × 10^-scale` degrees.
    pub fn new(mantissa: i64, scale: u8) -> (r: Degrees)
        ensures
            r.mantissa == mantissa,
            r.scale == scale,
    {
        Degrees { mantissa, scale }
    }

    /// The shortest decimal text of this angle, as a query string carries it.
    pub open spec fn text(self) -> Seq<char> {
        decimal_text(self.mantissa as int, self.scale as nat)
    }

    /// Reads a decimal text such as `46.3123975` or `-1.5`: its digits make
    /// the mantissa, the number of digits after the point the scale.
    ///
    /// `None` when the text is not an optional `-`, digits, and optionally a
    /// point and digits, when the mantissa does not fit an `i64`, or when more
    /// than 255 digits follow the point.
    pub fn parse(s: &str) -> (r: Option<Degrees>)
        ensures
            r is Some <==> (is_decimal_text(s@) && fraction_len(s@) <= 255 && i64::MIN
                <= decimal_mantissa(s@) <= i64::MAX),
            r is Some ==> r->Some_0.mantissa == decimal_mantissa(s@) && r->Some_0.scale
                == fraction_len(s@),
    {
        let ghost t = s@;
        let n = s.unicode_len();
        let mut i: usize = 0;
        let negative = n > 0 && s.get_char(0) == '-';
        if negative {
            i = 1;
        }
        let start = i;
        assert(start == sign_len(t));
        let mut acc: u64 = 0;
        let mut big = false;
        let ghost mut ds: Seq<char> = Seq::empty();
        while i < n && is_ascii_digit(s.get_char(i))
            invariant
                n == t.len(),
                t == s@,
                start <= i <= n,
                digit_run(t, i as int) == whole_end(t),
                start == sign_len(t),
                ds == t.subrange(start as int, i as int),
                big ==> digits_value(ds) > MAGNITUDE_LIMIT,
                !big ==> acc == digits_value(ds) && acc <= MAGNITUDE_LIMIT,
            decreases n - i,
        {
            let c = s.get_char(i);
            let ghost old_ds = ds;
            proof {
                ds = ds.push(c);
                assert(ds.drop_last() =~= old_ds);
            }
            accumulate(&mut acc, &mut big, c, Ghost(old_ds));
            i = i + 1;
            assert(ds =~= t.subrange(start as int, i as int));
        }
        assert(digit_run(t, i as int) == i);
        let whole_stop = i;
        if i == start {
            return None;
        }
        let mut scale: usize = 0;
        if i < n {
            if s.get_char(i) != '.' {
                return None;
            }
            i = i + 1;
            let frac_start = i;
            while i < n && is_ascii_digit(s.get_char(i))
                invariant
                    n == t.len(),
                    t == s@,
                    frac_start == whole_stop + 1,
                    whole_stop == whole_end(t),
                    frac_start <= i <= n,
                    scale == i - frac_start,
                    digit_run(t, i as int) == digit_run(t, frac_start as int),
                    start == sign_len(t),
                    ds == t.subrange(start as int, whole_stop as int) + t.subrange(
                        frac_start as int,
                        i as int,
                    ),
                    big ==> digits_value(ds) > MAGNITUDE_LIMIT,
                    !big ==> acc == digits_value(ds) && acc <= MAGNITUDE_LIMIT,
                decreases n - i,
            {
                let c = s.get_char(i);
                let ghost old_ds = ds;
                proof {
                    ds = ds.push(c);
                    assert(ds.drop_last() =~= old_ds);
                }
                accumulate(&mut acc, &mut big, c, Ghost(old_ds));
                i = i + 1;
                scale = scale + 1;
                assert(ds =~= t.subrange(start as int, whole_stop as int) + t.subrange(
                    frac_start as int,
                    i as int,
                ));
            }
            assert(digit_run(t, i as int) == i);
            if i < n || scale == 0 {
                return None;
            }
        }
        assert(ds =~= all_digits_of(t));
        if big || scale > 255 {
            return None;
        }
        if negative {
            let m: i64 = (-(acc as i128)) as i64;
            Some(Degrees { mantissa: m, scale: scale as u8 })
        } else if acc > 0x7fff_ffff_ffff_ffff {
            None
        } else {
            Some(Degrees { mantissa: acc as i64, scale: scale as u8 })
        }
    }

    /// The shortest decimal text of this angle.
    pub fn to_string(&self) -> (r: String)
        ensures
            r@ == self.text(),
    {
        let mut out = String::new();
        self.push_text(&mut out);
        assert(out@ =~= self.text());
        out
    }

    /// Appends the shortest decimal text of this angle to `out`.
    pub fn push_text(&self, out: &mut String)
        ensures
            final(out)@ == old(out)@ + self.text(),
    {
        let mut m: i64 = self.mantissa;
        let mut s: u8 = self.scale;
        while s > 0 && m % 10 == 0
            invariant
                normalized(m as int, s as nat) == normalized(self.mantissa as int, self.scale as nat),
            decreases s,
        {
            m = m / 10;
            s = s - 1;
        }
        let ghost nm = m as int;
        let ghost ns = s as nat;
        assert(normalized(nm, ns) == (nm, ns));
        if m < 0 {
            push_char(out, '-');
        }
        let ghost signed = out@;
        let magnitude: u64 = if m < 0 {
            (-(m as i128)) as u64
        } else {
            m as u64
        };
        let digits = decimal_chars(magnitude);
        proof {
            lemma_decimal_digits_len(magnitude as nat);
        }
        assert(digits@ == decimal_digits(abs(nm)));
        let width: usize = s as usize + 1;
        let padded = zero_pad(&digits, width);
        let split: usize = padded.len() - s as usize;
        let mut j: usize = 0;
        while j < padded.len()
            invariant
                j <= padded.len(),
                split <= padded.len(),
                split >= 1,
                out@ == signed + if j <= split || s == 0 {
                    padded@.subrange(0, j as int)
                } else {
                    padded@.subrange(0, split as int) + seq!['.'] + padded@.subrange(
                        split as int,
                        j as int,
                    )
                },
            decreases padded.len() - j,
        {
            if j == split && s > 0 {
                push_char(out, '.');
            }
            push_char(out, padded[j]);
            assert(out@ =~= signed + if j + 1 <= split || s == 0 {
                padded@.subrange(0, j + 1)
            } else {
                padded@.subrange(0, split as int) + seq!['.'] + padded@.subrange(
                    split as int,
                    j + 1,
                )
            });
            j = j + 1;
        }
        assert(padded@.subrange(0, padded.len() as int) =~= padded@);
        assert(out@ =~= old(out)@ + self.text());
    }
}

} // verus!
