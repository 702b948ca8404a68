//! Calendar dates as plain year / month / day numbers, with strict
//! `YYYY-MM-DD` parsing and rendering.

use vstd::prelude::*;

verus! {

/// A Gregorian calendar date. Valid values satisfy [`Date::valid`].
#[derive(Clone, Copy, Debug, PartialEq, Eq, Structural)]
pub struct Date {
    pub year: u32,
    pub month: u32,
    pub day: u32,
}

pub open spec fn is_leap_year(y: int) -> bool {
    (y % 4 == 0 && y % 100 != 0) || y % 400 == 0
}

pub open spec fn days_in_month(y: int, m: int) -> int {
    if m == 2 {
        if is_leap_year(y) {
            29
        } else {
            28
        }
    } else if m == 4 || m == 6 || m == 9 || m == 11 {
        30
    } else {
        31
    }
}

pub open spec fn valid_date(y: int, m: int, d: int) -> bool {
    &&& 0 <= y <= 9999
    &&& 1 <= m <= 12
    &&& 1 <= d <= days_in_month(y, m)
}

impl Date {
    pub open spec fn valid(self) -> bool {
        valid_date(self.year as int, self.month as int, self.day as int)
    }
}

pub open spec fn is_digit(c: char) -> bool {
    48 <= c as int <= 57
}

pub open spec fn digit_val(c: char) -> int {
    c as int - 48
}

/// The character for a single decimal digit value.
pub open spec fn digit_char(v: int) -> char {
    ((v + 48) as u8) as char
}

/// Shape check: ten characters, digits everywhere but the two dashes.
pub open spec fn date_text_wf(s: Seq<char>) -> bool {
    &&& s.len() == 10
    &&& forall|i: int| 0 <= i < 10 && i != 4 && i != 7 ==> is_digit(#[trigger] s[i])
    &&& s[4] == '-'
    &&& s[7] == '-'
}

pub open spec fn num2(s: Seq<char>, i: int) -> int {
    digit_val(s[i]) * 10 + digit_val(s[i + 1])
}

pub open spec fn num4(s: Seq<char>, i: int) -> int {
    digit_val(s[i]) * 1000 + digit_val(s[i + 1]) * 100 + digit_val(s[i + 2]) * 10 + digit_val(
        s[i + 3],
    )
}

/// A text parses as a date when it has the `YYYY-MM-DD` shape and names a
/// valid calendar day.
pub open spec fn date_text_parses(s: Seq<char>) -> bool {
    date_text_wf(s) && valid_date(num4(s, 0), num2(s, 5), num2(s, 8))
}

pub open spec fn date_of_text(s: Seq<char>) -> Date {
    Date { year: num4(s, 0) as u32, month: num2(s, 5) as u32, day: num2(s, 8) as u32 }
}

/// The ten-character `YYYY-MM-DD` rendering of a date.
pub open spec fn date_render(d: Date) -> Seq<char> {
    seq![
        digit_char(d.year as int / 1000),
        digit_char((d.year as int / 100) % 10),
        digit_char((d.year as int / 10) % 10),
        digit_char(d.year as int % 10),
        '-',
        digit_char(d.month as int / 10),
        digit_char(d.month as int % 10),
        '-',
        digit_char(d.day as int / 10),
        digit_char(d.day as int % 10),
    ]
}

/// A decimal digit's character round-trips through its value.
proof fn lemma_digit_char(v: int)
    requires
        0 <= v <= 9,
    ensures
        is_digit(digit_char(v)),
        digit_val(digit_char(v)) == v,
{
}

/// Round trip: the `YYYY-MM-DD` rendering of a valid date parses, and back
/// to the same date.
pub proof fn lemma_date_render_parses(d: Date)
    requires
        d.valid(),
    ensures
        date_text_parses(date_render(d)),
        date_of_text(date_render(d)) == d,
{
    let s = date_render(d);
    let y = d.year as int;
    let m = d.month as int;
    let dd = d.day as int;
    lemma_digit_char(y / 1000);
    lemma_digit_char((y / 100) % 10);
    lemma_digit_char((y / 10) % 10);
    lemma_digit_char(y % 10);
    lemma_digit_char(m / 10);
    lemma_digit_char(m % 10);
    lemma_digit_char(dd / 10);
    lemma_digit_char(dd % 10);
    assert(date_text_wf(s));
    assert((y / 1000) * 1000 + ((y / 100) % 10) * 100 + ((y / 10) % 10) * 10 + y % 10 == y)
        by (nonlinear_arith)
        requires
            0 <= y <= 9999,
    ;
    assert(num4(s, 0) == y);
    assert(num2(s, 5) == m);
    assert(num2(s, 8) == dd);
}

pub(crate) fn digit_of(c: char) -> (r: Option<u32>)
    ensures
        is_digit(c) ==> r == Some(digit_val(c) as u32),
        !is_digit(c) ==> r is None,
{
    let v = c as u32;
    if 48 <= v && v <= 57 {
        Some(v - 48)
    } else {
        None
    }
}

fn days_in_month_exec(y: u32, m: u32) -> (r: u32)
    ensures
        r as int == days_in_month(y as int, m as int),
{
    if m == 2 {
        if (y % 4 == 0 && y % 100 != 0) || y % 400 == 0 {
            29
        } else {
            28
        }
    } else if m == 4 || m == 6 || m == 9 || m == 11 {
        30
    } else {
        31
    }
}

/// Whether the date names an existing calendar day.
pub fn date_is_valid(d: &Date) -> (r: bool)
    ensures
        r == d.valid(),
{
    1 <= d.month && d.month <= 12 && 1 <= d.day && d.day <= days_in_month_exec(d.year, d.month)
        && d.year <= 9999
}

/// Strict `YYYY-MM-DD` parsing: exactly ten characters, two dashes, four plus
/// two plus two decimal digits, and the named day must exist in the calendar.
pub fn parse_date(s: &str) -> (r: Option<Date>)
    ensures
        date_text_parses(s@) ==> r == Some(date_of_text(s@)),
        !date_text_parses(s@) ==> r is None,
{
    if s.unicode_len() != 10 {
        return None;
    }
    if s.get_char(4) != '-' || s.get_char(7) != '-' {
        return None;
    }
    let mut digits: [u32; 10] = [0, 0, 0, 0, 0, 0, 0, 0, 0, 0];
    let mut i: usize = 0;
    while i < 10
        invariant
            i <= 10,
            s@.len() == 10,
            forall|j: int|
                0 <= j < i && j != 4 && j != 7 ==> is_digit(#[trigger] s@[j]) && digits[j] as int
                    == digit_val(s@[j]),
        decreases 10 - i,
    {
        if i != 4 && i != 7 {
            match digit_of(s.get_char(i)) {
                Some(d) => {
                    digits[i] = d;
                },
                None => {
                    return None;
                },
            }
        }
        i = i + 1;
    }
    proof {
        assert(is_digit(s@[0]) && is_digit(s@[1]) && is_digit(s@[2]) && is_digit(s@[3]));
        assert(is_digit(s@[5]) && is_digit(s@[6]) && is_digit(s@[8]) && is_digit(s@[9]));
    }
    let y = digits[0] * 1000 + digits[1] * 100 + digits[2] * 10 + digits[3];
    let m = digits[5] * 10 + digits[6];
    let d = digits[8] * 10 + digits[9];
    if 1 <= m && m <= 12 && 1 <= d && d <= days_in_month_exec(y, m) {
        Some(Date { year: y, month: m, day: d })
    } else {
        None
    }
}

pub(crate) fn digit_str(v: u32) -> (r: &'static str)
    requires
        v < 10,
    ensures
        r@ == seq![digit_char(v as int)],
{
    proof {
        reveal_strlit("0");
        reveal_strlit("1");
        reveal_strlit("2");
        reveal_strlit("3");
        reveal_strlit("4");
        reveal_strlit("5");
        reveal_strlit("6");
        reveal_strlit("7");
        reveal_strlit("8");
        reveal_strlit("9");
    }
    let r = match v {
        0 => "0",
        1 => "1",
        2 => "2",
        3 => "3",
        4 => "4",
        5 => "5",
        6 => "6",
        7 => "7",
        8 => "8",
        _ => "9",
    };
    proof {
        assert(r@ =~= seq![digit_char(v as int)]);
    }
    r
}

/// Renders a valid date as its ten-character `YYYY-MM-DD` text.
pub fn format_date(d: &Date) -> (r: String)
    requires
        d.valid(),
    ensures
        r@ == date_render(*d),
{
    proof {
        reveal_strlit("-");
    }
    let mut out = String::new();
    out.append(digit_str(d.year / 1000));
    out.append(digit_str((d.year / 100) % 10));
    out.append(digit_str((d.year / 10) % 10));
    out.append(digit_str(d.year % 10));
    out.append("-");
    out.append(digit_str(d.month / 10));
    out.append(digit_str(d.month % 10));
    out.append("-");
    out.append(digit_str(d.day / 10));
    out.append(digit_str(d.day % 10));
    proof {
        assert(out@ =~= date_render(*d));
    }
    out
}

} // verus!
