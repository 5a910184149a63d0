//! Calendar dates, stored and exchanged as `YYYY-MM-DD` text.
//!
//! `Date` keeps a real calendar date (leap years included) as year, month
//! and day; its type invariant makes every value of the type valid.  The
//! text form is fixed width and zero padded, so the store's lexicographic
//! comparison of two date strings agrees with calendar order.

use vstd::prelude::*;
use vstd::string::*;
use crate::text::{all_digits, dec_value, fmt_pad2, fmt_pad4, pad2, pad4, parse_digits_u64};

verus! {

/// Mathematical value of a calendar date.
pub struct DateM {
    pub year: int,
    pub month: int,
    pub day: int,
}

pub open spec fn leap_year(y: int) -> bool {
    (y % 4 == 0 && y % 100 != 0) || y % 400 == 0
}

pub open spec fn days_in_month(y: int, m: int) -> int {
    if m == 2 {
        if leap_year(y) {
            29
        } else {
            28
        }
    } else if m == 4 || m == 6 || m == 9 || m == 11 {
        30
    } else {
        31
    }
}

pub open spec fn valid_dm(d: DateM) -> bool {
    &&& 1 <= d.year <= 9999
    &&& 1 <= d.month <= 12
    &&& 1 <= d.day <= days_in_month(d.year, d.month)
}

/// The stand-in date used when stored text cannot be read back as a date.
pub open spec fn fallback_dm() -> DateM {
    DateM { year: 2000, month: 1, day: 1 }
}

/// Calendar order.
pub open spec fn dm_le(a: DateM, b: DateM) -> bool {
    if a.year != b.year {
        a.year < b.year
    } else if a.month != b.month {
        a.month < b.month
    } else {
        a.day <= b.day
    }
}

/// A valid calendar date between years 1 and 9999.
#[derive(Clone, Copy, Debug, PartialEq, Eq, Structural)]
pub struct Date {
    year: u16,
    month: u8,
    day: u8,
}

impl View for Date {
    type V = DateM;

    closed spec fn view(&self) -> DateM {
        DateM { year: self.year as int, month: self.month as int, day: self.day as int }
    }
}

/// The fixed text form of a date: four digit year, two digit month and day,
/// separated by hyphens.
pub open spec fn date_text(d: DateM) -> Seq<char> {
    pad4(d.year) + seq!['-'] + pad2(d.month) + seq!['-'] + pad2(d.day)
}

/// What a ten-character date string denotes, if anything.
pub open spec fn parse_date_text(s: Seq<char>) -> Option<DateM> {
    if s.len() == 10 && s[4] == '-' && s[7] == '-' && all_digits(s.subrange(0, 4)) && all_digits(
        s.subrange(5, 7),
    ) && all_digits(s.subrange(8, 10)) {
        let d = DateM {
            year: dec_value(s.subrange(0, 4)),
            month: dec_value(s.subrange(5, 7)),
            day: dec_value(s.subrange(8, 10)),
        };
        if valid_dm(d) {
            Some(d)
        } else {
            None
        }
    } else {
        None
    }
}

/// The text order of two formatted dates is their calendar order: the
/// store's lexicographic comparison of the fixed zero-padded form compares
/// the dates themselves.
pub proof fn lemma_date_text_order(a: DateM, b: DateM)
    requires
        valid_dm(a),
        valid_dm(b),
    ensures
        crate::text::str_le(date_text(a), date_text(b)) == dm_le(a, b),
{
    let ya = pad4(a.year);
    let yb = pad4(b.year);
    let ma = pad2(a.month);
    let mb = pad2(b.month);
    let da = pad2(a.day);
    let db = pad2(b.day);
    let sep = seq!['-'];
    crate::text::lemma_pad4_value(a.year);
    crate::text::lemma_pad4_value(b.year);
    crate::text::lemma_pad2_value(a.month);
    crate::text::lemma_pad2_value(b.month);
    crate::text::lemma_pad2_value(a.day);
    crate::text::lemma_pad2_value(b.day);
    let resta = sep + ma + sep + da;
    let restb = sep + mb + sep + db;
    assert(date_text(a) =~= ya + resta);
    assert(date_text(b) =~= yb + restb);
    crate::text::lemma_str_le_blocks(ya, yb, resta, restb);
    crate::text::lemma_str_le_digits(ya, yb);
    if ya == yb {
        assert(a.year == b.year);
        let ma_on = ma + (sep + da);
        let mb_on = mb + (sep + db);
        assert(resta =~= sep + ma_on);
        assert(restb =~= sep + mb_on);
        crate::text::lemma_str_le_blocks(sep, sep, ma_on, mb_on);
        crate::text::lemma_str_le_blocks(ma, mb, sep + da, sep + db);
        crate::text::lemma_str_le_digits(ma, mb);
        if ma == mb {
            assert(a.month == b.month);
            crate::text::lemma_str_le_blocks(sep, sep, da, db);
            crate::text::lemma_str_le_digits(da, db);
        }
    }
}

/// Formatting then parsing gives the date back: the fixed text form is a
/// faithful code for valid dates.
pub proof fn lemma_date_text_roundtrip(d: DateM)
    requires
        valid_dm(d),
    ensures
        parse_date_text(date_text(d)) == Some(d),
{
    let s = date_text(d);
    assert(s.subrange(0, 4) =~= pad4(d.year));
    assert(s.subrange(5, 7) =~= pad2(d.month));
    assert(s.subrange(8, 10) =~= pad2(d.day));
    crate::text::lemma_pad4_value(d.year);
    crate::text::lemma_pad2_value(d.month);
    crate::text::lemma_pad2_value(d.day);
}

fn days_in_month_x(y: u64, m: u64) -> (r: u64)
    ensures
        r as int == days_in_month(y as int, m as int),
{
    if m == 2 {
        if (y % 4 == 0 && y % 100 != 0) || y % 400 == 0 {
            29
        } else {
            28
        }
    } else if m == 4 || m == 6 || m == 9 || m == 11 {
        30
    } else {
        31
    }
}

impl Date {
    /// Every value of the type is a valid calendar date.
    #[verifier::type_invariant]
    pub open spec fn inv(self) -> bool {
        valid_dm(self@)
    }

    /// Builds a date; answers `None` unless the triple is a real calendar day.
    pub fn new(year: u16, month: u8, day: u8) -> (r: Option<Date>)
        ensures
            (r is Some) == valid_dm(
                DateM { year: year as int, month: month as int, day: day as int },
            ),
            r is Some ==> r.unwrap()@ == (DateM {
                year: year as int,
                month: month as int,
                day: day as int,
            }),
    {
        if 1 <= year && year <= 9999 && 1 <= month && month <= 12 && 1 <= day && day as u64
            <= days_in_month_x(year as u64, month as u64) {
            Some(Date { year, month, day })
        } else {
            None
        }
    }

    /// The date a decoder falls back to when a stored date string is
    /// unreadable.
    pub fn fallback() -> (r: Date)
        ensures
            r@ == fallback_dm(),
    {
        Date { year: 2000, month: 1, day: 1 }
    }

    pub fn year(&self) -> (r: u16)
        ensures
            r as int == self@.year,
    {
        self.year
    }

    pub fn month(&self) -> (r: u8)
        ensures
            r as int == self@.month,
    {
        self.month
    }

    pub fn day(&self) -> (r: u8)
        ensures
            r as int == self@.day,
    {
        self.day
    }

    /// Renders the date in its fixed `YYYY-MM-DD` form.
    pub fn format(&self) -> (r: String)
        ensures
            r@ == date_text(self@),
    {
        let mut s = fmt_pad4(self.year as u64);
        s.append("-");
        let m = fmt_pad2(self.month as u64);
        s.append(m.as_str());
        s.append("-");
        let d = fmt_pad2(self.day as u64);
        s.append(d.as_str());
        proof {
            reveal_strlit("-");
            assert(s@ =~= date_text(self@));
        }
        s
    }

    /// Reads a date from its fixed `YYYY-MM-DD` form; rejects anything else,
    /// malformed and impossible dates alike.
    pub fn parse(s: &str) -> (r: Option<Date>)
        ensures
            (r is Some) == (parse_date_text(s@) is Some),
            r is Some ==> r.unwrap()@ == parse_date_text(s@).unwrap(),
    {
        if s.unicode_len() != 10 {
            return None;
        }
        if s.get_char(4) != '-' || s.get_char(7) != '-' {
            return None;
        }
        let y = match parse_digits_u64(s, 0, 4) {
            Some(v) => v,
            None => {
                return None;
            },
        };
        let m = match parse_digits_u64(s, 5, 7) {
            Some(v) => v,
            None => {
                return None;
            },
        };
        let d = match parse_digits_u64(s, 8, 10) {
            Some(v) => v,
            None => {
                return None;
            },
        };
        proof {
            crate::text::lemma_dec_value_bound(s@.subrange(0, 4));
            crate::text::lemma_dec_value_bound(s@.subrange(5, 7));
            crate::text::lemma_dec_value_bound(s@.subrange(8, 10));
            crate::text::lemma_pow10_mono(4, 17);
            crate::text::lemma_pow10_mono(2, 17);
        }
        if 1 <= y && y <= 9999 && 1 <= m && m <= 12 && 1 <= d && d <= days_in_month_x(y, m) {
            Some(Date { year: y as u16, month: m as u8, day: d as u8 })
        } else {
            None
        }
    }
}

} // verus!
