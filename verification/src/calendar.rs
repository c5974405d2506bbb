//! Calendar dates and times of day, held as plain numbers, together with the
//! `YYYY-MM-DD` / `HH:MM:SS` text forms under which the store persists them.

use vstd::prelude::*;
use vstd::arithmetic::div_mod::lemma_fundamental_div_mod;
use vstd::arithmetic::div_mod::lemma_fundamental_div_mod_converse;
use vstd::arithmetic::div_mod::lemma_mod_pos_bound;

verus! {

/// A proleptic Gregorian calendar date.
#[derive(Clone, Copy, PartialEq, Eq, Structural, Debug)]
pub struct Date {
    pub year: u32,
    pub month: u32,
    pub day: u32,
}

/// A time of day.
#[derive(Clone, Copy, PartialEq, Eq, Structural, Debug)]
pub struct Time {
    pub hour: u32,
    pub minute: u32,
    pub second: u32,
}

pub open spec fn is_leap_year(y: int) -> bool {
    y % 4 == 0 && (y % 100 != 0 || y % 400 == 0)
}

pub open spec fn days_in_month(y: int, m: int) -> int {
    if m == 2 {
        if is_leap_year(y) {
            29
        } else {
            28
        }
    } else if m == 4 || m == 6 || m == 9 || m == 11 {
        30
    } else {
        31
    }
}

impl Date {
    /// A well-formed date names a real calendar day and fits the four-digit
    /// year of the stored text form.
    pub open spec fn wf(self) -> bool {
        self.year <= 9999 && 1 <= self.month <= 12 && 1 <= self.day
            && self.day <= days_in_month(self.year as int, self.month as int)
    }

    pub fn is_valid(&self) -> (r: bool)
        ensures
            r == self.wf(),
    {
        let leap: bool = self.year % 4 == 0 && (self.year % 100 != 0 || self.year % 400 == 0);
        let month_days: u32 = if self.month == 2 {
            if leap {
                29
            } else {
                28
            }
        } else if self.month == 4 || self.month == 6 || self.month == 9 || self.month == 11 {
            30
        } else {
            31
        };
        self.year <= 9999 && 1 <= self.month && self.month <= 12 && 1 <= self.day && self.day
            <= month_days
    }
}

impl Time {
    pub open spec fn wf(self) -> bool {
        self.hour < 24 && self.minute < 60 && self.second < 60
    }

    pub fn is_valid(&self) -> (r: bool)
        ensures
            r == self.wf(),
    {
        self.hour < 24 && self.minute < 60 && self.second < 60
    }
}

/// The documented fallback for an unreadable stored date.
pub open spec fn epoch_date() -> Date {
    Date { year: 1970, month: 1, day: 1 }
}

/// The documented fallback for an unreadable stored time.
pub open spec fn midnight() -> Time {
    Time { hour: 0, minute: 0, second: 0 }
}

pub fn epoch_date_value() -> (r: Date)
    ensures
        r == epoch_date(),
        r.wf(),
{
    Date { year: 1970, month: 1, day: 1 }
}

pub fn midnight_value() -> (r: Time)
    ensures
        r == midnight(),
        r.wf(),
{
    Time { hour: 0, minute: 0, second: 0 }
}

/// Calendar order on dates: lexicographic over (year, month, day).
pub open spec fn date_le_spec(a: Date, b: Date) -> bool {
    a.year < b.year || (a.year == b.year && (a.month < b.month || (a.month == b.month && a.day
        <= b.day)))
}

pub fn date_le(a: &Date, b: &Date) -> (r: bool)
    ensures
        r == date_le_spec(*a, *b),
{
    a.year < b.year || (a.year == b.year && (a.month < b.month || (a.month == b.month && a.day
        <= b.day)))
}

/// The decimal digit character for a value below ten; any other value maps
/// to a non-digit placeholder.
pub open spec fn digit_char(d: int) -> char {
    if d == 0 {
        '0'
    } else if d == 1 {
        '1'
    } else if d == 2 {
        '2'
    } else if d == 3 {
        '3'
    } else if d == 4 {
        '4'
    } else if d == 5 {
        '5'
    } else if d == 6 {
        '6'
    } else if d == 7 {
        '7'
    } else if d == 8 {
        '8'
    } else if d == 9 {
        '9'
    } else {
        '?'
    }
}

/// The value of a decimal digit character; ten for every other character.
pub open spec fn char_digit(c: char) -> int {
    if c == '0' {
        0
    } else if c == '1' {
        1
    } else if c == '2' {
        2
    } else if c == '3' {
        3
    } else if c == '4' {
        4
    } else if c == '5' {
        5
    } else if c == '6' {
        6
    } else if c == '7' {
        7
    } else if c == '8' {
        8
    } else if c == '9' {
        9
    } else {
        10
    }
}

pub open spec fn is_digit(c: char) -> bool {
    char_digit(c) < 10
}

fn char_digit_value(c: char) -> (r: u32)
    ensures
        r as int == char_digit(c),
{
    match c {
        '0' => 0,
        '1' => 1,
        '2' => 2,
        '3' => 3,
        '4' => 4,
        '5' => 5,
        '6' => 6,
        '7' => 7,
        '8' => 8,
        '9' => 9,
        _ => 10,
    }
}

fn digit_text(d: u32) -> (r: &'static str)
    requires
        d < 10,
    ensures
        r@ == seq![digit_char(d as int)],
{
    proof {
        reveal_strlit("0");
        reveal_strlit("1");
        reveal_strlit("2");
        reveal_strlit("3");
        reveal_strlit("4");
        reveal_strlit("5");
        reveal_strlit("6");
        reveal_strlit("7");
        reveal_strlit("8");
        reveal_strlit("9");
    }
    if d == 0 {
        "0"
    } else if d == 1 {
        "1"
    } else if d == 2 {
        "2"
    } else if d == 3 {
        "3"
    } else if d == 4 {
        "4"
    } else if d == 5 {
        "5"
    } else if d == 6 {
        "6"
    } else if d == 7 {
        "7"
    } else if d == 8 {
        "8"
    } else {
        "9"
    }
}

/// The stored text form of a date: `YYYY-MM-DD`, zero padded.
pub open spec fn date_text_of(d: Date) -> Seq<char> {
    seq![
        digit_char(d.year as int / 1000 % 10),
        digit_char(d.year as int / 100 % 10),
        digit_char(d.year as int / 10 % 10),
        digit_char(d.year as int % 10),
        '-',
        digit_char(d.month as int / 10),
        digit_char(d.month as int % 10),
        '-',
        digit_char(d.day as int / 10),
        digit_char(d.day as int % 10),
    ]
}

/// The stored text form of a time: `HH:MM:SS`, zero padded.
pub open spec fn time_text_of(t: Time) -> Seq<char> {
    seq![
        digit_char(t.hour as int / 10),
        digit_char(t.hour as int % 10),
        ':',
        digit_char(t.minute as int / 10),
        digit_char(t.minute as int % 10),
        ':',
        digit_char(t.second as int / 10),
        digit_char(t.second as int % 10),
    ]
}

pub fn format_date(d: &Date) -> (r: String)
    requires
        d.wf(),
    ensures
        r@ == date_text_of(*d),
{
    proof {
        reveal_strlit("-");
    }
    let mut s = String::new();
    s.append(digit_text(d.year / 1000 % 10));
    s.append(digit_text(d.year / 100 % 10));
    s.append(digit_text(d.year / 10 % 10));
    s.append(digit_text(d.year % 10));
    s.append("-");
    s.append(digit_text(d.month / 10));
    s.append(digit_text(d.month % 10));
    s.append("-");
    s.append(digit_text(d.day / 10));
    s.append(digit_text(d.day % 10));
    proof {
        assert(s@ =~= date_text_of(*d));
    }
    s
}

pub fn format_time(t: &Time) -> (r: String)
    requires
        t.wf(),
    ensures
        r@ == time_text_of(*t),
{
    proof {
        reveal_strlit(":");
    }
    let mut s = String::new();
    s.append(digit_text(t.hour / 10));
    s.append(digit_text(t.hour % 10));
    s.append(":");
    s.append(digit_text(t.minute / 10));
    s.append(digit_text(t.minute % 10));
    s.append(":");
    s.append(digit_text(t.second / 10));
    s.append(digit_text(t.second % 10));
    proof {
        assert(s@ =~= time_text_of(*t));
    }
    s
}

/// Whether a character sequence has the `YYYY-MM-DD` shape.
pub open spec fn date_text_shape(s: Seq<char>) -> bool {
    s.len() == 10 && is_digit(s[0]) && is_digit(s[1]) && is_digit(s[2]) && is_digit(s[3]) && s[4]
        == '-' && is_digit(s[5]) && is_digit(s[6]) && s[7] == '-' && is_digit(s[8]) && is_digit(
        s[9],
    )
}

/// The date named by a sequence of the `YYYY-MM-DD` shape.
pub open spec fn date_of_text(s: Seq<char>) -> Date {
    Date {
        year: (char_digit(s[0]) * 1000 + char_digit(s[1]) * 100 + char_digit(s[2]) * 10
            + char_digit(s[3])) as u32,
        month: (char_digit(s[5]) * 10 + char_digit(s[6])) as u32,
        day: (char_digit(s[8]) * 10 + char_digit(s[9])) as u32,
    }
}

/// What parsing a stored date yields: the named date when the text has the
/// right shape and names a real calendar day, and nothing otherwise.
pub open spec fn parse_date_spec(s: Seq<char>) -> Option<Date> {
    if date_text_shape(s) && date_of_text(s).wf() {
        Some(date_of_text(s))
    } else {
        None
    }
}

pub fn parse_date(s: &str) -> (r: Option<Date>)
    ensures
        r == parse_date_spec(s@),
{
    let n = s.unicode_len();
    if n != 10 {
        return None;
    }
    let d0 = char_digit_value(s.get_char(0));
    let d1 = char_digit_value(s.get_char(1));
    let d2 = char_digit_value(s.get_char(2));
    let d3 = char_digit_value(s.get_char(3));
    let d5 = char_digit_value(s.get_char(5));
    let d6 = char_digit_value(s.get_char(6));
    let d8 = char_digit_value(s.get_char(8));
    let d9 = char_digit_value(s.get_char(9));
    if d0 == 10 || d1 == 10 || d2 == 10 || d3 == 10 || d5 == 10 || d6 == 10 || d8 == 10 || d9 == 10
    {
        return None;
    }
    if !(s.get_char(4) == '-' && s.get_char(7) == '-') {
        return None;
    }
    let date = Date {
        year: d0 * 1000 + d1 * 100 + d2 * 10 + d3,
        month: d5 * 10 + d6,
        day: d8 * 10 + d9,
    };
    if date.is_valid() {
        Some(date)
    } else {
        None
    }
}

/// Whether a character sequence has the `HH:MM:SS` shape, or the shorter
/// `HH:MM` shape under which hearing slots arrive from the boundary.
pub open spec fn time_text_shape(s: Seq<char>) -> bool {
    (s.len() == 5 || s.len() == 8) && is_digit(s[0]) && is_digit(s[1]) && s[2] == ':' && is_digit(
        s[3],
    ) && is_digit(s[4]) && (s.len() == 8 ==> s[5] == ':' && is_digit(s[6]) && is_digit(s[7]))
}

/// The time named by a sequence of a time shape; a missing seconds field
/// reads as zero.
pub open spec fn time_of_text(s: Seq<char>) -> Time {
    Time {
        hour: (char_digit(s[0]) * 10 + char_digit(s[1])) as u32,
        minute: (char_digit(s[3]) * 10 + char_digit(s[4])) as u32,
        second: if s.len() == 8 {
            (char_digit(s[6]) * 10 + char_digit(s[7])) as u32
        } else {
            0
        },
    }
}

pub open spec fn parse_time_spec(s: Seq<char>) -> Option<Time> {
    if time_text_shape(s) && time_of_text(s).wf() {
        Some(time_of_text(s))
    } else {
        None
    }
}

pub fn parse_time(s: &str) -> (r: Option<Time>)
    ensures
        r == parse_time_spec(s@),
{
    let n = s.unicode_len();
    if n != 5 && n != 8 {
        return None;
    }
    let d0 = char_digit_value(s.get_char(0));
    let d1 = char_digit_value(s.get_char(1));
    let d3 = char_digit_value(s.get_char(3));
    let d4 = char_digit_value(s.get_char(4));
    if d0 == 10 || d1 == 10 || d3 == 10 || d4 == 10 {
        return None;
    }
    if s.get_char(2) != ':' {
        return None;
    }
    let second: u32 = if n == 8 {
        let d6 = char_digit_value(s.get_char(6));
        let d7 = char_digit_value(s.get_char(7));
        if d6 == 10 || d7 == 10 {
            return None;
        }
        if s.get_char(5) != ':' {
            return None;
        }
        d6 * 10 + d7
    } else {
        0
    };
    let time = Time { hour: d0 * 10 + d1, minute: d3 * 10 + d4, second };
    if time.is_valid() {
        Some(time)
    } else {
        None
    }
}

proof fn lemma_two_digits(m: int)
    requires
        0 <= m <= 99,
    ensures
        (m / 10 % 10) * 10 + m % 10 == m,
        m / 10 % 10 == m / 10,
{
    let q = m / 10;
    lemma_fundamental_div_mod(m, 10);
    lemma_mod_pos_bound(m, 10);
    assert(0 <= q <= 9);
    lemma_fundamental_div_mod_converse(q, 10, 0, q);
}

proof fn lemma_four_digits(y: int)
    requires
        0 <= y <= 9999,
    ensures
        (y / 1000 % 10) * 1000 + (y / 100 % 10) * 100 + (y / 10 % 10) * 10 + y % 10 == y,
{
    let a = y / 1000;
    let b2 = y / 100;
    let b1 = y / 10;
    lemma_fundamental_div_mod(y, 1000);
    lemma_mod_pos_bound(y, 1000);
    lemma_fundamental_div_mod(y, 100);
    lemma_mod_pos_bound(y, 100);
    lemma_fundamental_div_mod(y, 10);
    lemma_mod_pos_bound(y, 10);
    assert(0 <= a <= 9);
    lemma_fundamental_div_mod_converse(a, 10, 0, a);
    assert(0 <= b2 - 10 * a <= 9);
    lemma_fundamental_div_mod_converse(b2, 10, a, b2 - 10 * a);
    assert(0 <= b1 - 10 * b2 <= 9);
    lemma_fundamental_div_mod_converse(b1, 10, b2, b1 - 10 * b2);
}

proof fn lemma_two_digit_recover(c0: int, c1: int)
    requires
        0 <= c0 < 10,
        0 <= c1 < 10,
    ensures
        (c0 * 10 + c1) / 10 % 10 == c0,
        (c0 * 10 + c1) / 10 == c0,
        (c0 * 10 + c1) % 10 == c1,
{
    lemma_fundamental_div_mod_converse(c0 * 10 + c1, 10, c0, c1);
    lemma_fundamental_div_mod_converse(c0, 10, 0, c0);
}

proof fn lemma_four_digit_recover(c0: int, c1: int, c2: int, c3: int)
    requires
        0 <= c0 < 10,
        0 <= c1 < 10,
        0 <= c2 < 10,
        0 <= c3 < 10,
    ensures
        (c0 * 1000 + c1 * 100 + c2 * 10 + c3) / 1000 % 10 == c0,
        (c0 * 1000 + c1 * 100 + c2 * 10 + c3) / 100 % 10 == c1,
        (c0 * 1000 + c1 * 100 + c2 * 10 + c3) / 10 % 10 == c2,
        (c0 * 1000 + c1 * 100 + c2 * 10 + c3) % 10 == c3,
{
    let y = c0 * 1000 + c1 * 100 + c2 * 10 + c3;
    lemma_fundamental_div_mod_converse(y, 1000, c0, c1 * 100 + c2 * 10 + c3);
    lemma_fundamental_div_mod_converse(y, 100, c0 * 10 + c1, c2 * 10 + c3);
    lemma_fundamental_div_mod_converse(y, 10, c0 * 100 + c1 * 10 + c2, c3);
    lemma_fundamental_div_mod_converse(c0, 10, 0, c0);
    lemma_fundamental_div_mod_converse(c0 * 10 + c1, 10, c0, c1);
    lemma_fundamental_div_mod_converse(c0 * 100 + c1 * 10 + c2, 10, c0 * 10 + c1, c2);
}

proof fn lemma_digit_char_value(k: int)
    requires
        0 <= k < 10,
    ensures
        char_digit(digit_char(k)) == k,
        is_digit(digit_char(k)),
{
}

proof fn lemma_char_digit_char(c: char)
    requires
        is_digit(c),
    ensures
        digit_char(char_digit(c)) == c,
{
}

/// Law: a well-formed date written in its stored text form parses back to
/// the same date.
pub proof fn lemma_format_then_parse_date(d: Date)
    requires
        d.wf(),
    ensures
        parse_date_spec(date_text_of(d)) == Some(d),
{
    let s = date_text_of(d);
    let y = d.year as int;
    let m = d.month as int;
    let dd = d.day as int;
    lemma_four_digits(y);
    lemma_two_digits(m);
    lemma_two_digits(dd);
    lemma_digit_char_value(y / 1000 % 10);
    lemma_digit_char_value(y / 100 % 10);
    lemma_digit_char_value(y / 10 % 10);
    lemma_digit_char_value(y % 10);
    lemma_digit_char_value(m / 10);
    lemma_digit_char_value(m % 10);
    lemma_digit_char_value(dd / 10);
    lemma_digit_char_value(dd % 10);
    assert(date_text_shape(s));
    assert(char_digit(s[0]) * 1000 + char_digit(s[1]) * 100 + char_digit(s[2]) * 10 + char_digit(
        s[3],
    ) == y);
    assert(char_digit(s[5]) * 10 + char_digit(s[6]) == m);
    assert(char_digit(s[8]) * 10 + char_digit(s[9]) == dd);
    assert(date_of_text(s) == d);
}

/// Law: a text that parses as a date is exactly that date's stored text
/// form, so parsing loses nothing.
pub proof fn lemma_parse_then_format_date(s: Seq<char>, d: Date)
    requires
        parse_date_spec(s) == Some(d),
    ensures
        d.wf(),
        date_text_of(d) =~= s,
{
    let y = d.year as int;
    let m = d.month as int;
    let dd = d.day as int;
    let c0 = char_digit(s[0]);
    let c1 = char_digit(s[1]);
    let c2 = char_digit(s[2]);
    let c3 = char_digit(s[3]);
    assert(y == c0 * 1000 + c1 * 100 + c2 * 10 + c3);
    lemma_four_digit_recover(c0, c1, c2, c3);
    lemma_two_digit_recover(char_digit(s[5]), char_digit(s[6]));
    lemma_two_digit_recover(char_digit(s[8]), char_digit(s[9]));
    lemma_char_digit_char(s[0]);
    lemma_char_digit_char(s[1]);
    lemma_char_digit_char(s[2]);
    lemma_char_digit_char(s[3]);
    lemma_char_digit_char(s[5]);
    lemma_char_digit_char(s[6]);
    lemma_char_digit_char(s[8]);
    lemma_char_digit_char(s[9]);
    assert(date_text_of(d) =~= s);
}

/// Law: a well-formed time written in its stored text form parses back to
/// the same time.
pub proof fn lemma_format_then_parse_time(t: Time)
    requires
        t.wf(),
    ensures
        parse_time_spec(time_text_of(t)) == Some(t),
{
    let s = time_text_of(t);
    lemma_two_digits(t.hour as int);
    lemma_two_digits(t.minute as int);
    lemma_two_digits(t.second as int);
    assert(time_text_shape(s));
    assert(time_of_text(s) == t);
}

/// Law: a full-length time text that parses is exactly the stored text form
/// of the time it names; the short `HH:MM` form re-prints with zero seconds.
pub proof fn lemma_parse_then_format_time(s: Seq<char>, t: Time)
    requires
        parse_time_spec(s) == Some(t),
        s.len() == 8,
    ensures
        t.wf(),
        time_text_of(t) =~= s,
{
    lemma_two_digit_recover(char_digit(s[0]), char_digit(s[1]));
    lemma_two_digit_recover(char_digit(s[3]), char_digit(s[4]));
    lemma_two_digit_recover(char_digit(s[6]), char_digit(s[7]));
    lemma_char_digit_char(s[0]);
    lemma_char_digit_char(s[1]);
    lemma_char_digit_char(s[3]);
    lemma_char_digit_char(s[4]);
    lemma_char_digit_char(s[6]);
    lemma_char_digit_char(s[7]);
    assert(time_text_of(t) =~= s);
}

} // verus!

