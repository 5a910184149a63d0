//! Plain-text helpers shared by the date, money and field-coercion code:
//! decimal digit runs, fixed-width zero padding, decimal rendering and a few
//! character classes, each with an exact specification.

use vstd::prelude::*;
use vstd::string::*;

verus! {

/// Exact string comparison, specified over the character sequences.
pub fn str_eq(a: &str, b: &str) -> (r: bool)
    ensures
        r == (a@ == b@),
{
    let oa: String = a.to_owned();
    let ob: String = b.to_owned();
    oa == ob
}

pub open spec fn is_digit(c: char) -> bool {
    '0' <= c && c <= '9'
}

pub open spec fn digit_val(c: char) -> int {
    c as int - '0' as int
}

pub open spec fn all_digits(s: Seq<char>) -> bool {
    forall|i: int| 0 <= i < s.len() ==> is_digit(#[trigger] s[i])
}

pub open spec fn pow10(n: nat) -> int
    decreases n,
{
    if n == 0 {
        1
    } else {
        10 * pow10((n - 1) as nat)
    }
}

/// The number denoted by a run of decimal digits, most significant first.
pub open spec fn dec_value(s: Seq<char>) -> int
    decreases s.len(),
{
    if s.len() == 0 {
        0
    } else {
        dec_value(s.drop_last()) * 10 + digit_val(s.last())
    }
}

pub proof fn lemma_dec_value_bound(s: Seq<char>)
    requires
        all_digits(s),
    ensures
        0 <= dec_value(s) < pow10(s.len() as nat),
    decreases s.len(),
{
    if s.len() > 0 {
        assert(all_digits(s.drop_last()));
        lemma_dec_value_bound(s.drop_last());
        assert(is_digit(s.last()));
    }
}

pub proof fn lemma_pow10_mono(a: nat, b: nat)
    requires
        a <= b,
    ensures
        pow10(a) <= pow10(b),
    decreases b,
{
    if a < b {
        lemma_pow10_mono(a, (b - 1) as nat);
        lemma_dec_pos((b - 1) as nat);
    }
}

proof fn lemma_dec_pos(n: nat)
    ensures
        pow10(n) >= 1,
    decreases n,
{
    if n > 0 {
        lemma_dec_pos((n - 1) as nat);
    }
}

/// Reads the digits of `s` between `from` and `to` as a decimal number.
/// Fails on an empty range or any non-digit character.
pub fn parse_digits_u64(s: &str, from: usize, to: usize) -> (r: Option<u64>)
    requires
        from <= to && to <= s@.len(),
        to - from <= 18,
    ensures
        (r is Some) == (from < to && all_digits(s@.subrange(from as int, to as int))),
        r is Some ==> r.unwrap() as int == dec_value(s@.subrange(from as int, to as int)),
{
    if from == to {
        return None;
    }
    let mut acc: u64 = 0;
    let mut i: usize = from;
    while i < to
        invariant
            from <= i <= to && to <= s@.len(),
            to - from <= 18,
            all_digits(s@.subrange(from as int, i as int)),
            acc as int == dec_value(s@.subrange(from as int, i as int)),
        decreases to - i,
    {
        let c = s.get_char(i);
        if c < '0' || c > '9' {
            assert(!is_digit(s@.subrange(from as int, to as int)[i - from]));
            return None;
        }
        let d: u64 = (c as u32 - '0' as u32) as u64;
        proof {
            lemma_dec_value_bound(s@.subrange(from as int, i as int));
            lemma_pow10_mono((i - from) as nat, 17);
            assert(pow10(17) == 100_000_000_000_000_000) by {
                reveal_with_fuel(pow10, 18);
            }
            assert(s@.subrange(from as int, (i + 1) as int).drop_last() =~= s@.subrange(
                from as int,
                i as int,
            ));
        }
        acc = acc * 10 + d;
        i = i + 1;
    }
    proof {
        assert(s@.subrange(from as int, i as int) =~= s@.subrange(from as int, to as int));
    }
    Some(acc)
}

/// Concatenation of sequences is associative.
pub proof fn lemma_cat_assoc<A>(a: Seq<A>, b: Seq<A>, c: Seq<A>)
    ensures
        a + b + c == a + (b + c),
{
    assert(a + b + c =~= a + (b + c));
}

/// Whitespace as this library counts it: space, tab, newline, carriage return.
pub open spec fn is_space(c: char) -> bool {
    c == ' ' || c == '\t' || c == '\n' || c == '\r'
}

/// A string is blank when no character in it is anything but whitespace.
pub open spec fn is_blank(s: Seq<char>) -> bool {
    forall|i: int| 0 <= i < s.len() ==> is_space(#[trigger] s[i])
}

pub fn str_is_blank(s: &str) -> (r: bool)
    ensures
        r == is_blank(s@),
{
    let n = s.unicode_len();
    let mut i: usize = 0;
    while i < n
        invariant
            i <= n && n == s@.len(),
            forall|j: int| 0 <= j < i ==> is_space(#[trigger] s@[j]),
        decreases n - i,
    {
        let c = s.get_char(i);
        if !(c == ' ' || c == '\t' || c == '\n' || c == '\r') {
            assert(!is_space(s@[i as int]));
            return false;
        }
        i = i + 1;
    }
    true
}

/// `n` occurs somewhere inside `h` as a contiguous run.
pub open spec fn contains_sub(h: Seq<char>, n: Seq<char>) -> bool {
    exists|i: int| 0 <= i && i + n.len() <= h.len() && #[trigger] h.subrange(i, i + n.len()) == n
}

/// Lexicographic order on character sequences, the order in which the store
/// compares text values.
pub open spec fn str_le(a: Seq<char>, b: Seq<char>) -> bool
    decreases a.len(),
{
    if a.len() == 0 {
        true
    } else if b.len() == 0 {
        false
    } else if (a[0] as int) < (b[0] as int) {
        true
    } else if (a[0] as int) > (b[0] as int) {
        false
    } else {
        str_le(a.skip(1), b.skip(1))
    }
}

pub open spec fn digit_char(d: int) -> char {
    if d == 0 {
        '0'
    } else if d == 1 {
        '1'
    } else if d == 2 {
        '2'
    } else if d == 3 {
        '3'
    } else if d == 4 {
        '4'
    } else if d == 5 {
        '5'
    } else if d == 6 {
        '6'
    } else if d == 7 {
        '7'
    } else if d == 8 {
        '8'
    } else {
        '9'
    }
}

fn digit_str(d: u64) -> (r: &'static str)
    requires
        d < 10,
    ensures
        r@ =~= seq![digit_char(d as int)],
{
    proof {
        reveal_strlit("0");
        reveal_strlit("1");
        reveal_strlit("2");
        reveal_strlit("3");
        reveal_strlit("4");
        reveal_strlit("5");
        reveal_strlit("6");
        reveal_strlit("7");
        reveal_strlit("8");
        reveal_strlit("9");
    }
    if d == 0 {
        "0"
    } else if d == 1 {
        "1"
    } else if d == 2 {
        "2"
    } else if d == 3 {
        "3"
    } else if d == 4 {
        "4"
    } else if d == 5 {
        "5"
    } else if d == 6 {
        "6"
    } else if d == 7 {
        "7"
    } else if d == 8 {
        "8"
    } else {
        "9"
    }
}

pub proof fn lemma_digit_char(x: int)
    requires
        0 <= x < 10,
    ensures
        is_digit(digit_char(x)),
        digit_val(digit_char(x)) == x,
{
}

pub proof fn lemma_dec_value2(s: Seq<char>)
    requires
        s.len() == 2,
    ensures
        dec_value(s) == digit_val(s[0]) * 10 + digit_val(s[1]),
{
    reveal_with_fuel(dec_value, 3);
    assert(s.drop_last() =~= seq![s[0]]);
    assert(seq![s[0]].drop_last() =~= Seq::<char>::empty());
}

pub proof fn lemma_dec_value4(s: Seq<char>)
    requires
        s.len() == 4,
    ensures
        dec_value(s) == ((digit_val(s[0]) * 10 + digit_val(s[1])) * 10 + digit_val(s[2])) * 10
            + digit_val(s[3]),
{
    reveal_with_fuel(dec_value, 3);
    assert(s.drop_last() =~= seq![s[0], s[1], s[2]]);
    assert(seq![s[0], s[1], s[2]].drop_last() =~= seq![s[0], s[1]]);
    lemma_dec_value2(seq![s[0], s[1]]);
}

/// Two decimal digits, zero padded.
pub open spec fn pad2(v: int) -> Seq<char> {
    seq![digit_char(v / 10 % 10), digit_char(v % 10)]
}

/// Four decimal digits, zero padded.
pub open spec fn pad4(v: int) -> Seq<char> {
    seq![
        digit_char(v / 1000 % 10),
        digit_char(v / 100 % 10),
        digit_char(v / 10 % 10),
        digit_char(v % 10),
    ]
}

pub fn fmt_pad2(v: u64) -> (r: String)
    ensures
        r@ == pad2(v as int),
{
    let mut s = String::new();
    s.append(digit_str(v / 10 % 10));
    s.append(digit_str(v % 10));
    proof {
        assert(s@ =~= pad2(v as int));
    }
    s
}

pub fn fmt_pad4(v: u64) -> (r: String)
    ensures
        r@ == pad4(v as int),
{
    let mut s = String::new();
    s.append(digit_str(v / 1000 % 10));
    s.append(digit_str(v / 100 % 10));
    s.append(digit_str(v / 10 % 10));
    s.append(digit_str(v % 10));
    proof {
        assert(s@ =~= pad4(v as int));
    }
    s
}

/// A two-digit pad is all digits and reads back as its value.
pub proof fn lemma_pad2_value(v: int)
    requires
        0 <= v <= 99,
    ensures
        all_digits(pad2(v)),
        pad2(v).len() == 2,
        dec_value(pad2(v)) == v,
{
    lemma_digit_char(v / 10 % 10);
    lemma_digit_char(v % 10);
    lemma_dec_value2(pad2(v));
    assert(v == (v / 10) * 10 + v % 10);
}

/// A four-digit pad is all digits and reads back as its value.
pub proof fn lemma_pad4_value(v: int)
    requires
        0 <= v <= 9999,
    ensures
        all_digits(pad4(v)),
        pad4(v).len() == 4,
        dec_value(pad4(v)) == v,
{
    lemma_digit_char(v / 1000 % 10);
    lemma_digit_char(v / 100 % 10);
    lemma_digit_char(v / 10 % 10);
    lemma_digit_char(v % 10);
    lemma_dec_value4(pad4(v));
    assert(v == (v / 10) * 10 + v % 10);
    assert(v / 10 == (v / 100) * 10 + v / 10 % 10);
    assert(v / 100 == (v / 1000) * 10 + v / 100 % 10);
    assert(v / 1000 % 10 == v / 1000);
}

/// The leading digit carries its power of ten: a digit run's value splits
/// into its head digit and the value of the rest.
pub proof fn lemma_dec_value_head(s: Seq<char>)
    requires
        s.len() > 0,
    ensures
        dec_value(s) == digit_val(s[0]) * pow10((s.len() - 1) as nat) + dec_value(s.skip(1)),
    decreases s.len(),
{
    if s.len() == 1 {
        assert(s.skip(1) =~= Seq::<char>::empty());
        assert(s.drop_last() =~= Seq::<char>::empty());
        assert(s.last() == s[0]);
        assert(dec_value(s) == dec_value(s.drop_last()) * 10 + digit_val(s.last()));
        assert(dec_value(Seq::<char>::empty()) == 0);
        assert(pow10(0) == 1);
    } else {
        let d = s.drop_last();
        lemma_dec_value_head(d);
        assert(d[0] == s[0]);
        assert(d.skip(1) =~= s.skip(1).drop_last());
        assert(s.skip(1).last() == s.last());
        let p = pow10((d.len() - 1) as nat);
        assert(pow10((s.len() - 1) as nat) == 10 * p);
        assert(dec_value(s) == dec_value(d) * 10 + digit_val(s.last()));
        assert(dec_value(s.skip(1)) == dec_value(s.skip(1).drop_last()) * 10 + digit_val(
            s.skip(1).last(),
        ));
        assert(dec_value(d) * 10 == digit_val(s[0]) * p * 10 + dec_value(d.skip(1)) * 10)
            by (nonlinear_arith)
            requires
                dec_value(d) == digit_val(s[0]) * p + dec_value(d.skip(1)),
        ;
        assert(digit_val(s[0]) * p * 10 == digit_val(s[0]) * (10 * p)) by (nonlinear_arith);
        assert(dec_value(s) == digit_val(s[0]) * p * 10 + dec_value(d.skip(1)) * 10 + digit_val(
            s.last(),
        ));
        assert(dec_value(s.skip(1)) == dec_value(d.skip(1)) * 10 + digit_val(s.last()));
        assert(dec_value(s) == digit_val(s[0]) * (10 * p) + dec_value(s.skip(1)));
    }
}

/// On equal-length digit runs, lexicographic order is numeric order.
pub proof fn lemma_str_le_digits(a: Seq<char>, b: Seq<char>)
    requires
        a.len() == b.len(),
        all_digits(a),
        all_digits(b),
    ensures
        str_le(a, b) == (dec_value(a) <= dec_value(b)),
    decreases a.len(),
{
    if a.len() > 0 {
        lemma_dec_value_head(a);
        lemma_dec_value_head(b);
        assert(all_digits(a.skip(1)) && all_digits(b.skip(1)));
        lemma_dec_value_bound(a.skip(1));
        lemma_dec_value_bound(b.skip(1));
        let p = pow10((a.len() - 1) as nat);
        lemma_pow10_mono(0, (a.len() - 1) as nat);
        let da = digit_val(a[0]);
        let db = digit_val(b[0]);
        if (a[0] as int) == (b[0] as int) {
            assert(a[0] == b[0]);
            lemma_str_le_digits(a.skip(1), b.skip(1));
        } else {
            if da < db {
                assert((da + 1) * p <= db * p) by (nonlinear_arith)
                    requires
                        da + 1 <= db,
                        p >= 0,
                ;
                assert((da + 1) * p == da * p + p) by (nonlinear_arith);
                assert(dec_value(a) < dec_value(b));
            } else {
                assert((db + 1) * p <= da * p) by (nonlinear_arith)
                    requires
                        db + 1 <= da,
                        p >= 0,
                ;
                assert((db + 1) * p == db * p + p) by (nonlinear_arith);
                assert(dec_value(b) < dec_value(a));
            }
        }
    }
}

/// Lexicographic comparison of two texts with equal-length leading blocks:
/// unequal blocks decide it, equal blocks pass it on.
pub proof fn lemma_str_le_blocks(p: Seq<char>, q: Seq<char>, s: Seq<char>, t: Seq<char>)
    requires
        p.len() == q.len(),
    ensures
        str_le(p + s, q + t) == (if p == q {
            str_le(s, t)
        } else {
            str_le(p, q)
        }),
    decreases p.len(),
{
    if p.len() == 0 {
        assert(p =~= q);
        assert(p + s =~= s);
        assert(q + t =~= t);
    } else {
        assert((p + s)[0] == p[0]);
        assert((q + t)[0] == q[0]);
        if (p[0] as int) == (q[0] as int) {
            assert(p[0] == q[0]);
            assert((p + s).skip(1) =~= p.skip(1) + s);
            assert((q + t).skip(1) =~= q.skip(1) + t);
            lemma_str_le_blocks(p.skip(1), q.skip(1), s, t);
            if p.skip(1) == q.skip(1) {
                assert forall|i: int| 0 <= i < p.len() implies p[i] == q[i] by {
                    if i > 0 {
                        assert(p.skip(1)[i - 1] == q.skip(1)[i - 1]);
                    }
                }
                assert(p =~= q);
            } else {
                assert(p != q) by {
                    if p == q {
                        assert(p.skip(1) =~= q.skip(1));
                    }
                }
            }
        } else {
            assert(p != q) by {
                if p == q {
                    assert(p[0] == q[0]);
                }
            }
        }
    }
}

/// Decimal rendering of a non-negative number, no padding.
pub open spec fn dec_str(n: int) -> Seq<char>
    decreases n,
{
    if n < 10 {
        seq![digit_char(n)]
    } else {
        dec_str(n / 10).push(digit_char(n % 10))
    }
}

/// Decimal rendering of a signed number.
pub open spec fn dec_str_signed(n: int) -> Seq<char> {
    if n < 0 {
        seq!['-'] + dec_str(-n)
    } else {
        dec_str(n)
    }
}

pub fn fmt_u64(n: u64) -> (r: String)
    ensures
        r@ == dec_str(n as int),
    decreases n,
{
    if n < 10 {
        let mut s = String::new();
        s.append(digit_str(n));
        proof {
            assert(s@ =~= dec_str(n as int));
        }
        s
    } else {
        let mut s = fmt_u64(n / 10);
        s.append(digit_str(n % 10));
        proof {
            assert(s@ =~= dec_str(n as int));
        }
        s
    }
}

pub fn fmt_i64(n: i64) -> (r: String)
    ensures
        r@ == dec_str_signed(n as int),
{
    if n >= 0 {
        fmt_u64(n as u64)
    } else {
        let a: u64 = ((-(n + 1)) as u64) + 1;
        assert(a as int == -(n as int));
        let mut s = String::new();
        s.append("-");
        let t = fmt_u64(a);
        s.append(t.as_str());
        proof {
            reveal_strlit("-");
            assert(s@ =~= dec_str_signed(n as int));
        }
        s
    }
}

} // verus!
