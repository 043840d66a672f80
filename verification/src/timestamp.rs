//! Local time, and the file name that a picture taken at that time gets:
//! `YYYY-MM-DD_HH-MM-SS.jpg`.

use crate::normalize::{is_normal, lemma_normal_concat};
use chrono::{Datelike, Timelike};
use vstd::prelude::*;

verus! {

/// A local date and time of day, to the second.
#[derive(Clone, Copy, Debug, PartialEq, Eq, Structural)]
pub struct Timestamp {
    pub year: i32,
    pub month: u32,
    pub day: u32,
    pub hour: u32,
    pub minute: u32,
    pub second: u32,
}

impl Timestamp {
    /// Whether each field but the year is in the range that a calendar and a
    /// clock give it.
    pub open spec fn in_range(self) -> bool {
        &&& 1 <= self.month <= 12
        &&& 1 <= self.day <= 31
        &&& self.hour <= 23
        &&& self.minute <= 59
        &&& self.second <= 59
    }
}

/// Reads the clock: `chrono::Local::now`, taken apart by the accessors of
/// chrono's `Datelike` and `Timelike`. Of the time itself nothing is claimed.
/// chrono documents the month as 1 to 12, the day as 1 to 31, the hour as 0
/// to 23, and minute and second as 0 to 59. `Local::now` panics where the
/// system's clock stands before 1970 or the system's time zone cannot be
/// read.
#[verifier::external_body]
pub(crate) fn local_now() -> (r: Timestamp)
    ensures
        r.in_range(),
{
    let now = chrono::Local::now();
    Timestamp {
        year: now.year(),
        month: now.month(),
        day: now.day(),
        hour: now.hour(),
        minute: now.minute(),
        second: now.second(),
    }
}

/// The character for a decimal digit.
pub open spec fn digit(d: int) -> char {
    ('0' as int + d) as char
}

/// The decimal digits of `n`, without leading zeros.
pub open spec fn decimal(n: nat) -> Seq<char>
    decreases n,
{
    if n < 10 {
        seq![digit(n as int)]
    } else {
        decimal(n / 10).push(digit((n % 10) as int))
    }
}

/// `count` zeros.
pub open spec fn zeros(count: int) -> Seq<char> {
    Seq::new(
        if count > 0 {
            count as nat
        } else {
            0
        },
        |i: int| '0',
    )
}

/// The decimal digits of `n`, with zeros in front up to `width` digits. A
/// number with more digits than `width` keeps them all.
pub open spec fn padded(n: nat, width: nat) -> Seq<char> {
    zeros(width - decimal(n).len()) + decimal(n)
}

/// The year as text: four digits from 0 to 9999, else a sign and at least
/// four digits.
pub open spec fn year_text(year: int) -> Seq<char> {
    if 0 <= year <= 9999 {
        padded(year as nat, 4)
    } else if year < 0 {
        seq!['-'] + padded((-year) as nat, 4)
    } else {
        seq!['+'] + padded(year as nat, 4)
    }
}

/// The time as text: `YYYY-MM-DD_HH-MM-SS`.
pub open spec fn stamp_text(t: Timestamp) -> Seq<char> {
    year_text(t.year as int) + seq!['-'] + padded(t.month as nat, 2) + seq!['-'] + padded(
        t.day as nat,
        2,
    ) + seq!['_'] + padded(t.hour as nat, 2) + seq!['-'] + padded(t.minute as nat, 2) + seq!['-']
        + padded(t.second as nat, 2)
}

/// The name of the file for a picture taken at `t`.
pub open spec fn file_name_of(t: Timestamp) -> Seq<char> {
    stamp_text(t) + seq!['.', 'j', 'p', 'g']
}

/// The character for the decimal digit `d`.
fn digit_char(d: u32) -> (r: char)
    requires
        d < 10,
    ensures
        r == digit(d as int),
{
    if d == 0 {
        '0'
    } else if d == 1 {
        '1'
    } else if d == 2 {
        '2'
    } else if d == 3 {
        '3'
    } else if d == 4 {
        '4'
    } else if d == 5 {
        '5'
    } else if d == 6 {
        '6'
    } else if d == 7 {
        '7'
    } else if d == 8 {
        '8'
    } else {
        '9'
    }
}

/// Appends the decimal digits of `n` to `out`.
fn push_decimal(out: &mut Vec<char>, n: u32)
    ensures
        final(out)@ == old(out)@ + decimal(n as nat),
    decreases n,
{
    if n < 10 {
        out.push(digit_char(n));
        assert(out@ =~= old(out)@ + decimal(n as nat));
    } else {
        push_decimal(out, n / 10);
        out.push(digit_char(n % 10));
        assert(out@ =~= old(out)@ + decimal(n as nat));
    }
}

/// Appends `n` to `out`, in decimal and with zeros in front up to `width`
/// digits.
fn push_padded(out: &mut String, n: u32, width: usize)
    ensures
        final(out)@ == old(out)@ + padded(n as nat, width as nat),
{
    let mut digits: Vec<char> = Vec::new();
    push_decimal(&mut digits, n);
    assert(digits@ =~= decimal(n as nat));
    let mut k: usize = digits.len();
    while k < width
        invariant
            digits.len() <= k,
            k <= width || k == digits.len(),
            out@ == old(out)@ + zeros(k - digits.len()),
        decreases width - k,
    {
        out.push('0');
        k += 1;
        assert(out@ =~= old(out)@ + zeros(k - digits.len()));
    }
    let ghost front = out@;
    let mut i: usize = 0;
    while i < digits.len()
        invariant
            i <= digits.len(),
            out@ == front + digits@.take(i as int),
        decreases digits.len() - i,
    {
        out.push(digits[i]);
        i += 1;
        assert(out@ =~= front + digits@.take(i as int));
    }
    assert(digits@.take(digits.len() as int) =~= digits@);
    assert(out@ =~= old(out)@ + padded(n as nat, width as nat));
}

/// Appends the year to `out`.
fn push_year(out: &mut String, year: i32)
    ensures
        final(out)@ == old(out)@ + year_text(year as int),
{
    if 0 <= year && year <= 9999 {
        push_padded(out, year as u32, 4);
    } else if year < 0 {
        out.push('-');
        let magnitude: u32 = (-(year as i64)) as u32;
        push_padded(out, magnitude, 4);
        assert(out@ =~= old(out)@ + year_text(year as int));
    } else {
        out.push('+');
        push_padded(out, year as u32, 4);
        assert(out@ =~= old(out)@ + year_text(year as int));
    }
}

/// The name of the file for a picture taken at `t`.
pub fn file_name(t: &Timestamp) -> (r: String)
    ensures
        r@ == file_name_of(*t),
{
    let mut out = String::new();
    push_year(&mut out, t.year);
    out.push('-');
    push_padded(&mut out, t.month, 2);
    out.push('-');
    push_padded(&mut out, t.day, 2);
    out.push('_');
    push_padded(&mut out, t.hour, 2);
    out.push('-');
    push_padded(&mut out, t.minute, 2);
    out.push('-');
    push_padded(&mut out, t.second, 2);
    out.push('.');
    out.push('j');
    out.push('p');
    out.push('g');
    assert(out@ =~= file_name_of(*t));
    out
}

/// Two decimal digits: the tens and the ones of `n`.
pub open spec fn two_digits(n: int) -> Seq<char> {
    seq![digit(n / 10), digit(n % 10)]
}

/// Four decimal digits: the thousands, hundreds, tens and ones of `n`.
pub open spec fn four_digits(n: int) -> Seq<char> {
    seq![digit(n / 1000), digit(n / 100 % 10), digit(n / 10 % 10), digit(n % 10)]
}

/// Up to 99, a number padded to two digits is its tens and its ones.
pub proof fn lemma_padded_two(n: nat)
    requires
        n <= 99,
    ensures
        padded(n, 2) == two_digits(n as int),
{
    reveal_with_fuel(decimal, 3);
    if n < 10 {
        assert(zeros(1) =~= seq!['0']);
    } else {
        assert(zeros(0) =~= Seq::<char>::empty());
    }
    assert(padded(n, 2) =~= two_digits(n as int));
}

/// Up to 9999, a number padded to four digits is its thousands, hundreds,
/// tens and ones.
pub proof fn lemma_padded_four(n: nat)
    requires
        n <= 9999,
    ensures
        padded(n, 4) == four_digits(n as int),
{
    reveal_with_fuel(decimal, 5);
    if n < 10 {
        assert(zeros(3) =~= seq!['0', '0', '0']);
    } else if n < 100 {
        assert(zeros(2) =~= seq!['0', '0']);
    } else if n < 1000 {
        assert(zeros(1) =~= seq!['0']);
    } else {
        assert(zeros(0) =~= Seq::<char>::empty());
    }
    assert(padded(n, 4) =~= four_digits(n as int));
}

/// For a time of the years 0 to 9999 with its other fields in range, the
/// file name has 23 characters: four digits of the year, then two digits
/// each of month, day, hour, minute and second, with `-`, `-`, `_`, `-`, `-`
/// between them, and `.jpg` at the end.
pub proof fn lemma_file_name_layout(t: Timestamp)
    requires
        t.in_range(),
        0 <= t.year <= 9999,
    ensures
        file_name_of(t) == four_digits(t.year as int) + seq!['-'] + two_digits(t.month as int)
            + seq!['-'] + two_digits(t.day as int) + seq!['_'] + two_digits(t.hour as int)
            + seq!['-'] + two_digits(t.minute as int) + seq!['-'] + two_digits(t.second as int)
            + seq!['.', 'j', 'p', 'g'],
        file_name_of(t).len() == 23,
{
    lemma_padded_four(t.year as nat);
    lemma_padded_two(t.month as nat);
    lemma_padded_two(t.day as nat);
    lemma_padded_two(t.hour as nat);
    lemma_padded_two(t.minute as nat);
    lemma_padded_two(t.second as nat);
}

/// For such a time the file name holds nothing that a folder-safe name
/// would not hold.
pub proof fn lemma_file_name_is_normal(t: Timestamp)
    requires
        t.in_range(),
        0 <= t.year <= 9999,
    ensures
        is_normal(file_name_of(t)),
{
    lemma_file_name_layout(t);
    let year = four_digits(t.year as int);
    let month = two_digits(t.month as int);
    let day = two_digits(t.day as int);
    let hour = two_digits(t.hour as int);
    let minute = two_digits(t.minute as int);
    let second = two_digits(t.second as int);
    assert(is_normal(year));
    assert(is_normal(month));
    assert(is_normal(day));
    assert(is_normal(hour));
    assert(is_normal(minute));
    assert(is_normal(second));
    let a = year + seq!['-'];
    lemma_normal_concat(year, seq!['-']);
    let b = a + month;
    lemma_normal_concat(a, month);
    let c = b + seq!['-'];
    lemma_normal_concat(b, seq!['-']);
    let d = c + day;
    lemma_normal_concat(c, day);
    let e = d + seq!['_'];
    lemma_normal_concat(d, seq!['_']);
    let f = e + hour;
    lemma_normal_concat(e, hour);
    let g = f + seq!['-'];
    lemma_normal_concat(f, seq!['-']);
    let h = g + minute;
    lemma_normal_concat(g, minute);
    let k = h + seq!['-'];
    lemma_normal_concat(h, seq!['-']);
    let l = k + second;
    lemma_normal_concat(k, second);
    lemma_normal_concat(l, seq!['.', 'j', 'p', 'g']);
}

} // verus!
