use vstd::prelude::*;

use crate::numeric::{all_digits, dec_value, is_digit, lemma_dec_value_bound, pow10};

verus! {

pub open spec fn is_leap_year(y: int) -> bool {
    (y % 4 == 0 && y % 100 != 0) || y % 400 == 0
}

pub open spec fn days_in_month(y: int, m: int) -> int {
    if m == 2 {
        if is_leap_year(y) {
            29
        } else {
            28
        }
    } else if m == 4 || m == 6 || m == 9 || m == 11 {
        30
    } else {
        31
    }
}

/// A calendar date the parser can produce: four-digit year, valid month,
/// valid day of that month.
pub open spec fn valid_ymd(y: int, m: int, d: int) -> bool {
    &&& 0 <= y <= 9999
    &&& 1 <= m <= 12
    &&& 1 <= d <= days_in_month(y, m)
}

/// A calendar date held as plain year, month and day numbers.
#[derive(Clone, Copy, PartialEq, Eq, Structural, Debug)]
pub struct Date {
    pub year: i32,
    pub month: u8,
    pub day: u8,
}

impl Date {
    pub open spec fn wf(&self) -> bool {
        valid_ymd(self.year as int, self.month as int, self.day as int)
    }
}

/// The digits of `s` between `from` and `to`, all decimal, read as a number.
pub fn parse_digits(s: &str, from: usize, to: usize) -> (r: Option<u32>)
    requires
        from <= to <= s@.len(),
        to - from <= 9,
    ensures
        r == (if all_digits(s@.subrange(from as int, to as int)) {
            Some(dec_value(s@.subrange(from as int, to as int)) as u32)
        } else {
            None::<u32>
        }),
{
    let ghost digits = s@.subrange(from as int, to as int);
    let mut acc: u32 = 0;
    let mut i: usize = from;
    while i < to
        invariant
            from <= i <= to <= s@.len(),
            to - from <= 9,
            digits == s@.subrange(from as int, to as int),
            forall|j: int| 0 <= j < i - from ==> is_digit(#[trigger] digits[j]),
            acc == dec_value(digits.take(i - from)),
            acc < pow10((i - from) as nat),
        decreases to - i,
    {
        let c = s.get_char(i);
        let cv = c as u32;
        if cv < 48 || cv > 57 {
            proof {
                assert(digits[i - from] == s@[i as int]);
                assert(!is_digit(digits[i - from]));
            }
            return None;
        }
        proof {
            assert(digits[i - from] == s@[i as int]);
            assert(is_digit(digits[i - from]));
            crate::numeric::lemma_dec_value_take_step(digits, i - from);
            crate::numeric::lemma_pow10_monotone((i - from + 1) as nat, 9);
            crate::numeric::lemma_pow10_9();
            crate::numeric::lemma_pow10_positive((i - from) as nat);
        }
        acc = acc * 10 + (cv - 48);
        i = i + 1;
    }
    proof {
        assert(digits.take(to - from) =~= digits);
        lemma_dec_value_bound(digits);
    }
    Some(acc)
}

/// The year, month and day groups of a ten-character ISO date string.
pub open spec fn iso_year(s: Seq<char>) -> int {
    dec_value(s.subrange(0, 4))
}

pub open spec fn iso_month(s: Seq<char>) -> int {
    dec_value(s.subrange(5, 7))
}

pub open spec fn iso_day(s: Seq<char>) -> int {
    dec_value(s.subrange(8, 10))
}

/// A well-formed ISO `YYYY-MM-DD` date string denoting a valid calendar
/// date.
pub open spec fn is_iso_date(s: Seq<char>) -> bool {
    &&& s.len() == 10
    &&& s[4] == '-'
    &&& s[7] == '-'
    &&& all_digits(s.subrange(0, 4))
    &&& all_digits(s.subrange(5, 7))
    &&& all_digits(s.subrange(8, 10))
    &&& valid_ymd(iso_year(s), iso_month(s), iso_day(s))
}

/// Parses a `YYYY-MM-DD` date, accepting exactly the strings that denote a
/// valid calendar date, leap years included.
pub fn parse_iso_date(s: &str) -> (r: Option<Date>)
    ensures
        r matches Some(d) ==> d.wf(),
        r == (if is_iso_date(s@) {
            Some(
                Date {
                    year: iso_year(s@) as i32,
                    month: iso_month(s@) as u8,
                    day: iso_day(s@) as u8,
                },
            )
        } else {
            None::<Date>
        }),
{
    if s.unicode_len() != 10 {
        return None;
    }
    if s.get_char(4) != '-' || s.get_char(7) != '-' {
        return None;
    }
    let y = match parse_digits(s, 0, 4) {
        Some(v) => v,
        None => {
            return None;
        },
    };
    let m = match parse_digits(s, 5, 7) {
        Some(v) => v,
        None => {
            return None;
        },
    };
    let d = match parse_digits(s, 8, 10) {
        Some(v) => v,
        None => {
            return None;
        },
    };
    proof {
        lemma_dec_value_bound(s@.subrange(0, 4));
        lemma_dec_value_bound(s@.subrange(5, 7));
        lemma_dec_value_bound(s@.subrange(8, 10));
        assert(pow10(4) == 10000 && pow10(2) == 100) by {
            reveal_with_fuel(pow10, 5);
        }
    }
    if m < 1 || m > 12 {
        return None;
    }
    let leap = (y % 4 == 0 && y % 100 != 0) || y % 400 == 0;
    let limit: u32 = if m == 2 {
        if leap {
            29
        } else {
            28
        }
    } else if m == 4 || m == 6 || m == 9 || m == 11 {
        30
    } else {
        31
    };
    if d < 1 || d > limit {
        return None;
    }
    Some(Date { year: y as i32, month: m as u8, day: d as u8 })
}

} // verus!
