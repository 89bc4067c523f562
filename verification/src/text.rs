//! Building display text: decimal numbers, rounding and padded columns.
//!
//! Every function here is stated over the characters of the text (`Seq<char>`),
//! so column widths count characters, as `std::fmt` does when it pads.

use vstd::prelude::*;

verus! {

/// `String::push` appends one character.
pub assume_specification[ String::push ](s: &mut String, c: char)
    ensures
        final(s)@ == old(s)@.push(c),
;

/// `String::pop` takes the last character off, if there is one.
pub assume_specification[ String::pop ](s: &mut String) -> (r: Option<char>)
    ensures
        old(s)@.len() == 0 ==> r is None && final(s)@ == old(s)@,
        old(s)@.len() > 0 ==> r == Some(old(s)@.last()) && final(s)@ == old(s)@.drop_last(),
;

/// What `str::trim` leaves of a text: the text without the white space at its
/// two ends.
pub uninterp spec fn trimmed(text: Seq<char>) -> Seq<char>;

/// `str::trim` returns the text without leading and trailing white space; what
/// it returns depends on the text alone, and is a slice of the text, so no
/// longer than it.
pub assume_specification<'a>[ str::trim ](s: &'a str) -> (r: &'a str)
    ensures
        r@ == trimmed(s@),
        r@.len() <= s@.len(),
;

/// The character that shows the decimal digit `d`.
pub open spec fn digit_char(d: int) -> char {
    if d == 0 {
        '0'
    } else if d == 1 {
        '1'
    } else if d == 2 {
        '2'
    } else if d == 3 {
        '3'
    } else if d == 4 {
        '4'
    } else if d == 5 {
        '5'
    } else if d == 6 {
        '6'
    } else if d == 7 {
        '7'
    } else if d == 8 {
        '8'
    } else {
        '9'
    }
}

/// The decimal digits of `n`, most significant first, without leading zeros.
pub open spec fn nat_digits(n: nat) -> Seq<char>
    decreases n,
{
    if n < 10 {
        seq![digit_char(n as int)]
    } else {
        nat_digits(n / 10).push(digit_char((n % 10) as int))
    }
}

/// The decimal text of `n`, with a leading `-` when it is negative.
pub open spec fn int_digits(n: int) -> Seq<char> {
    if n < 0 {
        seq!['-'] + nat_digits((-n) as nat)
    } else {
        nat_digits(n as nat)
    }
}

/// `n` copies of `c`.
pub open spec fn repeated(c: char, n: nat) -> Seq<char> {
    Seq::new(n, |i: int| c)
}

/// How many characters of padding bring `len` up to `width`.
pub open spec fn padding(len: nat, width: nat) -> nat {
    if width > len {
        (width - len) as nat
    } else {
        0
    }
}

/// `text` flush right in a column of `width` characters; longer text is kept whole.
pub open spec fn right_aligned(text: Seq<char>, width: nat) -> Seq<char> {
    repeated(' ', padding(text.len(), width)) + text
}

/// `text` flush left in a column of `width` characters; longer text is kept whole.
pub open spec fn left_aligned(text: Seq<char>, width: nat) -> Seq<char> {
    text + repeated(' ', padding(text.len(), width))
}

/// `text` in the middle of a column of `width` characters; an odd character of
/// padding goes to the right.
pub open spec fn centered(text: Seq<char>, width: nat) -> Seq<char> {
    let pad = padding(text.len(), width);
    repeated(' ', pad / 2) + text + repeated(' ', (pad - pad / 2) as nat)
}

/// `n / d` rounded to the nearest integer, a tie going to the even neighbour.
pub open spec fn round_half_even(n: nat, d: nat) -> nat
    recommends
        d > 0,
{
    let q = n / d;
    let r = n % d;
    if 2 * r > d || (2 * r == d && q % 2 == 1) {
        q + 1
    } else {
        q
    }
}

/// The size of `n` without its sign.
pub open spec fn magnitude(n: int) -> nat {
    if n < 0 {
        (-n) as nat
    } else {
        n as nat
    }
}

/// The fraction `n / d` cut to a whole number towards zero.
pub open spec fn fraction_truncated(n: int, d: int) -> int
    recommends
        d > 0,
{
    if n < 0 {
        -((-n) / d)
    } else {
        n / d
    }
}

/// Digits behind the sign of `n`: a `-` where `n` is negative, even where
/// the digits are all zero.
pub open spec fn signed(n: int, digits: Seq<char>) -> Seq<char> {
    if n < 0 {
        seq!['-'] + digits
    } else {
        digits
    }
}

/// The fraction `n / d` shown with no decimal place: rounded once, half to even.
pub open spec fn fraction_whole_text(n: int, d: int) -> Seq<char>
    recommends
        d > 0,
{
    signed(n, nat_digits(round_half_even(magnitude(n), d as nat)))
}

/// The fraction `n / d` shown with two decimal places: rounded once, half to
/// even, to the nearest hundredth.
pub open spec fn fraction_hundredths_text(n: int, d: int) -> Seq<char>
    recommends
        d > 0,
{
    let h = round_half_even(magnitude(n) * 100, d as nat);
    signed(
        n,
        nat_digits(h / 100) + seq![
            '.',
            digit_char(((h / 10) % 10) as int),
            digit_char((h % 10) as int),
        ],
    )
}

/// A value given in thousandths, cut to whole units towards zero.
pub open spec fn truncated_units(milli: int) -> int {
    fraction_truncated(milli, 1000)
}

/// A value given in thousandths, shown with no decimal place: rounded half to
/// even, and with the sign of the value even where it rounds to zero.
pub open spec fn whole_text(milli: int) -> Seq<char> {
    fraction_whole_text(milli, 1000)
}

/// A value given in thousandths, shown with two decimal places: rounded half to
/// even, and with the sign of the value even where it rounds to zero.
pub open spec fn hundredths_text(milli: int) -> Seq<char> {
    fraction_hundredths_text(milli, 1000)
}

/// A number below one hundred as two digits, with a leading zero.
pub open spec fn two_digits(n: nat) -> Seq<char> {
    seq![digit_char((n / 10) as int), digit_char((n % 10) as int)]
}

pub(crate) fn digit(d: u8) -> (c: char)
    requires
        d < 10,
    ensures
        c == digit_char(d as int),
{
    match d {
        0 => '0',
        1 => '1',
        2 => '2',
        3 => '3',
        4 => '4',
        5 => '5',
        6 => '6',
        7 => '7',
        8 => '8',
        _ => '9',
    }
}

/// Appends the decimal digits of `n`.
pub fn push_nat(s: &mut String, n: u128)
    ensures
        final(s)@ == old(s)@ + nat_digits(n as nat),
    decreases n,
{
    if n >= 10 {
        push_nat(s, n / 10);
    }
    s.push(digit((n % 10) as u8));
}

/// The size of `n` without its sign, which always fits 64 unsigned bits.
pub(crate) fn abs_u64(n: i64) -> (m: u64)
    ensures
        m == magnitude(n as int),
{
    if n >= 0 {
        n as u64
    } else {
        (-(n as i128)) as u64
    }
}

/// Appends the decimal text of `n`.
pub fn push_int(s: &mut String, n: i64)
    ensures
        final(s)@ == old(s)@ + int_digits(n as int),
{
    if n < 0 {
        s.push('-');
    }
    push_nat(s, abs_u64(n) as u128);
}

/// Appends `n` copies of `c`.
pub fn push_repeated(s: &mut String, c: char, n: usize)
    ensures
        final(s)@ == old(s)@ + repeated(c, n as nat),
{
    let mut i: usize = 0;
    while i < n
        invariant
            i <= n,
            s@ == old(s)@ + repeated(c, i as nat),
        decreases n - i,
    {
        s.push(c);
        i += 1;
    }
}

/// Appends the characters of `text`.
pub fn push_text(s: &mut String, text: &str)
    ensures
        final(s)@ == old(s)@ + text@,
{
    s.append(text);
}

/// The padding that `std::fmt` adds to text of `len` characters in a column of `width`.
fn pad_width(len: usize, width: usize) -> (p: usize)
    ensures
        p == padding(len as nat, width as nat),
{
    if width > len {
        width - len
    } else {
        0
    }
}

/// `text` as `{:>width$}` lays it out.
pub fn align_right(text: &str, width: usize) -> (r: String)
    ensures
        r@ == right_aligned(text@, width as nat),
{
    let mut r = String::new();
    push_repeated(&mut r, ' ', pad_width(text.unicode_len(), width));
    push_text(&mut r, text);
    r
}

/// `text` as `{:<width$}` lays it out.
pub fn align_left(text: &str, width: usize) -> (r: String)
    ensures
        r@ == left_aligned(text@, width as nat),
{
    let mut r = String::new();
    push_text(&mut r, text);
    push_repeated(&mut r, ' ', pad_width(text.unicode_len(), width));
    r
}

/// `text` as `{:^width$}` lays it out.
pub fn center(text: &str, width: usize) -> (r: String)
    ensures
        r@ == centered(text@, width as nat),
{
    let pad = pad_width(text.unicode_len(), width);
    let mut r = String::new();
    push_repeated(&mut r, ' ', pad / 2);
    push_text(&mut r, text);
    push_repeated(&mut r, ' ', pad - pad / 2);
    r
}

/// `n / d` to the nearest integer, ties to even.
pub fn rounded_half_even(n: u128, d: u128) -> (r: u128)
    requires
        d > 0,
    ensures
        r == round_half_even(n as nat, d as nat),
{
    let q = n / d;
    let rem = n % d;
    if rem > d - rem || (rem == d - rem && q % 2 == 1) {
        assert(q < u128::MAX) by {
            assert(d >= 2);
            assert(q <= n / 2) by (nonlinear_arith)
                requires
                    q == n / d,
                    d >= 2,
            ;
        }
        q + 1
    } else {
        q
    }
}

/// A figure to show, held exactly: the fraction `num / den` of whole units.
#[derive(Debug, Clone, Copy, PartialEq, Eq)]
pub struct Figure {
    pub num: i64,
    pub den: u64,
}

impl Figure {
    /// The denominator is not zero.
    pub open spec fn well_formed(self) -> bool {
        self.den > 0
    }

    /// The figure of a value given in thousandths.
    pub fn of_thousandths(milli: i64) -> (r: Figure)
        ensures
            r.num == milli,
            r.den == 1000,
            r.well_formed(),
    {
        Figure { num: milli, den: 1000 }
    }

    /// The figure cut to a whole number towards zero, as a cast to an
    /// integer cuts it.
    pub fn truncate(&self) -> (r: i64)
        requires
            self.well_formed(),
        ensures
            r == fraction_truncated(self.num as int, self.den as int),
    {
        let size = abs_u64(self.num) / self.den;
        assert(size <= magnitude(self.num as int)) by (nonlinear_arith)
            requires
                size == magnitude(self.num as int) / (self.den as nat),
                self.den > 0,
        ;
        if self.num < 0 {
            (-(size as i128)) as i64
        } else {
            size as i64
        }
    }

    /// Appends the figure as `{:.0}` shows it.
    pub fn push_whole(&self, s: &mut String)
        requires
            self.well_formed(),
        ensures
            final(s)@ == old(s)@ + fraction_whole_text(self.num as int, self.den as int),
    {
        if self.num < 0 {
            s.push('-');
        }
        push_nat(s, rounded_half_even(abs_u64(self.num) as u128, self.den as u128));
    }

    /// Appends the figure as `{:.2}` shows it.
    pub fn push_hundredths(&self, s: &mut String)
        requires
            self.well_formed(),
        ensures
            final(s)@ == old(s)@ + fraction_hundredths_text(self.num as int, self.den as int),
    {
        if self.num < 0 {
            s.push('-');
        }
        let h = rounded_half_even(abs_u64(self.num) as u128 * 100, self.den as u128);
        push_nat(s, h / 100);
        s.push('.');
        s.push(digit(((h / 10) % 10) as u8));
        s.push(digit((h % 10) as u8));
    }

    /// The figure as `{:.0}` shows it.
    pub fn whole(&self) -> (r: String)
        requires
            self.well_formed(),
        ensures
            r@ == fraction_whole_text(self.num as int, self.den as int),
    {
        let mut r = String::new();
        self.push_whole(&mut r);
        r
    }

    /// The figure as `{:.2}` shows it.
    pub fn hundredths(&self) -> (r: String)
        requires
            self.well_formed(),
        ensures
            r@ == fraction_hundredths_text(self.num as int, self.den as int),
    {
        let mut r = String::new();
        self.push_hundredths(&mut r);
        r
    }
}

/// A value in thousandths cut to whole units towards zero, as a cast to an
/// integer cuts it.
pub fn truncate_units(milli: i64) -> (r: i64)
    ensures
        r == truncated_units(milli as int),
{
    Figure::of_thousandths(milli).truncate()
}

/// Appends a value in thousandths as `{:.0}` shows it.
pub fn push_whole(s: &mut String, milli: i64)
    ensures
        final(s)@ == old(s)@ + whole_text(milli as int),
{
    Figure::of_thousandths(milli).push_whole(s);
}

/// Appends a value in thousandths as `{:.2}` shows it.
pub fn push_hundredths(s: &mut String, milli: i64)
    ensures
        final(s)@ == old(s)@ + hundredths_text(milli as int),
{
    Figure::of_thousandths(milli).push_hundredths(s);
}

/// Appends a number below one hundred as two digits.
pub fn push_two_digits(s: &mut String, n: u32)
    requires
        n < 100,
    ensures
        final(s)@ == old(s)@ + two_digits(n as nat),
{
    s.push(digit((n / 10) as u8));
    s.push(digit((n % 10) as u8));
}

/// The decimal text of `n`.
pub fn int_to_string(n: i64) -> (r: String)
    ensures
        r@ == int_digits(n as int),
{
    let mut r = String::new();
    push_int(&mut r, n);
    r
}

/// A value in thousandths as `{:.0}` shows it.
pub fn whole_to_string(milli: i64) -> (r: String)
    ensures
        r@ == whole_text(milli as int),
{
    let mut r = String::new();
    push_whole(&mut r, milli);
    r
}

/// A value in thousandths as `{:.2}` shows it.
pub fn hundredths_to_string(milli: i64) -> (r: String)
    ensures
        r@ == hundredths_text(milli as int),
{
    let mut r = String::new();
    push_hundredths(&mut r, milli);
    r
}

} // verus!
