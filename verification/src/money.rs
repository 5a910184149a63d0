//! Money amounts, held as a whole number of cents.
//!
//! The store and the record type keep monetary values as integers, so the
//! arithmetic in contracts is exact.  Text in the shape `123`, `123.4` or
//! `123.45`, with an optional leading minus, is read as cents; anything else
//! is rejected.  The integer part may hold at most fifteen digits, which
//! keeps every accepted amount far inside the range of the cent counter.

use vstd::prelude::*;
use vstd::string::*;
use crate::text::{all_digits, dec_value, dec_str, pad2, fmt_u64, fmt_pad2};

verus! {

/// Index of the first `.` in `s`, or -1 when there is none.
pub open spec fn dot_index(s: Seq<char>) -> int
    decreases s.len(),
{
    if s.len() == 0 {
        -1
    } else if s[0] == '.' {
        0
    } else if dot_index(s.skip(1)) == -1 {
        -1
    } else {
        dot_index(s.skip(1)) + 1
    }
}

pub proof fn lemma_dot_index(s: Seq<char>)
    ensures
        dot_index(s) == -1 <==> (forall|i: int| 0 <= i < s.len() ==> s[i] != '.'),
        dot_index(s) != -1 ==> 0 <= dot_index(s) < s.len() && s[dot_index(s)] == '.' && (forall|
            j: int,
        |
            0 <= j < dot_index(s) ==> s[j] != '.'),
    decreases s.len(),
{
    if s.len() > 0 {
        lemma_dot_index(s.skip(1));
        if s[0] != '.' {
            assert(forall|i: int| 1 <= i < s.len() ==> s[i] == s.skip(1)[i - 1]);
        }
    }
}

/// Cents denoted by an unsigned amount: digits with an optional dot and one
/// or two fraction digits.
pub open spec fn parse_cents_unsigned(t: Seq<char>) -> Option<int> {
    let p = dot_index(t);
    if p == -1 {
        if 1 <= t.len() <= 15 && all_digits(t) {
            Some(dec_value(t) * 100)
        } else {
            None
        }
    } else {
        let ip = t.subrange(0, p);
        let fp = t.subrange(p + 1, t.len() as int);
        if 1 <= ip.len() <= 15 && all_digits(ip) && 1 <= fp.len() <= 2 && all_digits(fp) {
            Some(
                dec_value(ip) * 100 + if fp.len() == 1 {
                    dec_value(fp) * 10
                } else {
                    dec_value(fp)
                },
            )
        } else {
            None
        }
    }
}

/// Cents denoted by a money string, sign included.
pub open spec fn parse_cents_text(s: Seq<char>) -> Option<int> {
    if s.len() > 0 && s[0] == '-' {
        match parse_cents_unsigned(s.skip(1)) {
            Some(v) => Some(-v),
            None => None,
        }
    } else {
        parse_cents_unsigned(s)
    }
}

/// Canonical text for a cent count: no sign for zero and above, always two
/// fraction digits.
pub open spec fn cents_text(c: int) -> Seq<char> {
    if c < 0 {
        seq!['-'] + dec_str(-c / 100) + seq!['.'] + pad2(-c % 100)
    } else {
        dec_str(c / 100) + seq!['.'] + pad2(c % 100)
    }
}

/// Reads a money string as cents.
pub fn parse_cents(s: &str) -> (r: Option<i64>)
    ensures
        (r is Some) == (parse_cents_text(s@) is Some),
        r is Some ==> Some(r.unwrap() as int) == parse_cents_text(s@),
{
    let n = s.unicode_len();
    let neg = n > 0 && s.get_char(0) == '-';
    let start: usize = if neg {
        1
    } else {
        0
    };
    let ghost t = s@.skip(start as int);
    proof {
        if !neg {
            assert(t =~= s@);
        }
        lemma_dot_index(t);
    }
    // Find the first dot, if any.
    let mut i: usize = start;
    let mut dot: usize = n;
    let mut found = false;
    while i < n
        invariant
            start <= i <= n && n == s@.len() && start <= n,
            t == s@.skip(start as int),
            found ==> start <= dot < i && s@[dot as int] == '.' && (forall|j: int|
                start <= j < dot ==> s@[j] != '.'),
            !found ==> (forall|j: int| start <= j < i ==> s@[j] != '.') && dot == n,
        decreases n - i,
    {
        if !found && s.get_char(i) == '.' {
            dot = i;
            found = true;
        }
        i = i + 1;
    }
    proof {
        assert(forall|k: int| 0 <= k < t.len() ==> t[k] == s@[k + start]);
        if found {
            assert(t[dot - start] == '.');
            assert(forall|j: int| 0 <= j < dot - start ==> t[j] != '.');
            assert(dot_index(t) == dot - start);
        } else {
            assert(forall|j: int| 0 <= j < t.len() ==> t[j] != '.');
            assert(dot_index(t) == -1);
        }
    }
    let int_to: usize = if found {
        dot
    } else {
        n
    };
    if int_to - start < 1 || int_to - start > 15 {
        proof {
            if found {
                assert(t.subrange(0, dot - start).len() == int_to - start);
            }
        }
        return None;
    }
    let v = match crate::text::parse_digits_u64(s, start, int_to) {
        Some(v) => v,
        None => {
            proof {
                if found {
                    assert(t.subrange(0, dot - start) =~= s@.subrange(start as int, int_to as int));
                } else {
                    assert(t =~= s@.subrange(start as int, int_to as int));
                }
            }
            return None;
        },
    };
    proof {
        if found {
            assert(t.subrange(0, dot - start) =~= s@.subrange(start as int, int_to as int));
        } else {
            assert(t =~= s@.subrange(start as int, int_to as int));
        }
        crate::text::lemma_dec_value_bound(s@.subrange(start as int, int_to as int));
        crate::text::lemma_pow10_mono((int_to - start) as nat, 15);
        assert(crate::text::pow10(15) == 1_000_000_000_000_000) by {
            reveal_with_fuel(crate::text::pow10, 16);
        }
    }
    let cents: u64;
    if found {
        let flen = n - (dot + 1);
        if flen < 1 || flen > 2 {
            proof {
                assert(t.subrange(dot - start + 1, t.len() as int).len() == flen);
            }
            return None;
        }
        let f = match crate::text::parse_digits_u64(s, dot + 1, n) {
            Some(f) => f,
            None => {
                proof {
                    assert(t.subrange(dot - start + 1, t.len() as int) =~= s@.subrange(
                        (dot + 1) as int,
                        n as int,
                    ));
                }
                return None;
            },
        };
        proof {
            assert(t.subrange(dot - start + 1, t.len() as int) =~= s@.subrange(
                (dot + 1) as int,
                n as int,
            ));
            crate::text::lemma_dec_value_bound(s@.subrange((dot + 1) as int, n as int));
            crate::text::lemma_pow10_mono((n - dot - 1) as nat, 2);
            reveal_with_fuel(crate::text::pow10, 3);
        }
        cents = v * 100 + (if flen == 1 {
            f * 10
        } else {
            f
        });
    } else {
        cents = v * 100;
    }
    if neg {
        let out: i64 = -(cents as i64);
        Some(out)
    } else {
        Some(cents as i64)
    }
}

/// Renders a cent count in its canonical money form.
pub fn fmt_cents(c: i64) -> (r: String)
    ensures
        r@ == cents_text(c as int),
{
    if c >= 0 {
        let mut s = fmt_u64((c as u64) / 100);
        s.append(".");
        let f = fmt_pad2((c as u64) % 100);
        s.append(f.as_str());
        proof {
            reveal_strlit(".");
            assert(s@ =~= cents_text(c as int));
        }
        s
    } else {
        let a: u64 = ((-(c + 1)) as u64) + 1;
        assert(a as int == -(c as int));
        let mut s = String::new();
        s.append("-");
        let w = fmt_u64(a / 100);
        s.append(w.as_str());
        s.append(".");
        let f = fmt_pad2(a % 100);
        s.append(f.as_str());
        proof {
            reveal_strlit("-");
            reveal_strlit(".");
            assert(s@ =~= cents_text(c as int));
        }
        s
    }
}

} // verus!
