//! Decimal representation of machine integers.
//!
//! Client-visible session identifiers travel inside request paths as decimal
//! text, and the native driver's port is handed over as a decimal flag, so
//! the library formats and parses decimal numerals with exact contracts.

use vstd::prelude::*;
use vstd::string::StrSliceExecFns;
use crate::text::push_char;

verus! {

/// The character standing for one decimal digit.
pub open spec fn digit_char(d: nat) -> char
    recommends
        d < 10,
{
    if d == 0 {
        '0'
    } else if d == 1 {
        '1'
    } else if d == 2 {
        '2'
    } else if d == 3 {
        '3'
    } else if d == 4 {
        '4'
    } else if d == 5 {
        '5'
    } else if d == 6 {
        '6'
    } else if d == 7 {
        '7'
    } else if d == 8 {
        '8'
    } else {
        '9'
    }
}

/// The decimal numeral of a natural number, most significant digit first.
pub open spec fn dec_rep(n: nat) -> Seq<char>
    decreases n,
{
    if n < 10 {
        seq![digit_char(n)]
    } else {
        dec_rep(n / 10).push(digit_char(n % 10))
    }
}

/// Whether the character is a decimal digit.
pub open spec fn is_digit_char(c: char) -> bool {
    c == '0' || c == '1' || c == '2' || c == '3' || c == '4' || c == '5' || c == '6' || c == '7'
        || c == '8' || c == '9'
}

/// The value of one decimal digit character.
pub open spec fn digit_val(c: char) -> nat
    recommends
        is_digit_char(c),
{
    if c == '0' {
        0
    } else if c == '1' {
        1
    } else if c == '2' {
        2
    } else if c == '3' {
        3
    } else if c == '4' {
        4
    } else if c == '5' {
        5
    } else if c == '6' {
        6
    } else if c == '7' {
        7
    } else if c == '8' {
        8
    } else {
        9
    }
}

/// Whether every character of the sequence is a decimal digit.
pub open spec fn all_digits(s: Seq<char>) -> bool {
    forall|i: int| 0 <= i < s.len() ==> is_digit_char(s[i])
}

/// The numeric value of a sequence of decimal digit characters.
pub open spec fn dec_val(s: Seq<char>) -> nat
    recommends
        all_digits(s),
    decreases s.len(),
{
    if s.len() == 0 {
        0
    } else {
        dec_val(s.drop_last()) * 10 + digit_val(s.last())
    }
}

/// What parsing a decimal numeral as a `u64` yields: the value of the
/// digits, provided the text is a nonempty run of digits whose value fits.
pub open spec fn spec_parse_u64(s: Seq<char>) -> Option<u64> {
    if s.len() > 0 && all_digits(s) && dec_val(s) <= u64::MAX {
        Some(dec_val(s) as u64)
    } else {
        None
    }
}

/// What parsing a decimal numeral as a `u16` yields.
pub open spec fn spec_parse_u16(s: Seq<char>) -> Option<u16> {
    if s.len() > 0 && all_digits(s) && dec_val(s) <= u16::MAX {
        Some(dec_val(s) as u16)
    } else {
        None
    }
}

/// A digit character round-trips through its value.
proof fn lemma_digit_roundtrip(d: nat)
    requires
        d < 10,
    ensures
        is_digit_char(digit_char(d)),
        digit_val(digit_char(d)) == d,
{
}

/// Reversing after a push puts the new element in front.
proof fn lemma_reverse_push<A>(s: Seq<A>, x: A)
    ensures
        s.push(x).reverse() =~= seq![x] + s.reverse(),
{
    let l = s.push(x).reverse();
    let r = seq![x] + s.reverse();
    assert(l.len() == r.len());
    assert forall|i: int| 0 <= i < l.len() implies l[i] == r[i] by {
        assert(l[i] == s.push(x)[s.len() - i]);
    }
}

/// The numeral of a number is a nonempty run of digits whose value is the
/// number itself.
pub proof fn lemma_dec_rep_val(n: nat)
    ensures
        dec_rep(n).len() >= 1,
        all_digits(dec_rep(n)),
        dec_val(dec_rep(n)) == n,
    decreases n,
{
    if n < 10 {
        lemma_digit_roundtrip(n);
        assert(dec_rep(n) == seq![digit_char(n)]);
        assert(dec_rep(n).drop_last() =~= Seq::<char>::empty());
        assert(dec_val(dec_rep(n)) == dec_val(Seq::<char>::empty()) * 10 + digit_val(
            digit_char(n),
        ));
    } else {
        lemma_dec_rep_val(n / 10);
        lemma_digit_roundtrip(n % 10);
        let whole = dec_rep(n);
        assert(whole == dec_rep(n / 10).push(digit_char(n % 10)));
        assert(whole.drop_last() =~= dec_rep(n / 10));
        assert(whole.last() == digit_char(n % 10));
        assert(dec_val(whole) == dec_val(dec_rep(n / 10)) * 10 + digit_val(digit_char(n % 10)));
        assert(dec_val(whole) == (n / 10) * 10 + n % 10);
        assert((n / 10) * 10 + n % 10 == n) by (nonlinear_arith);
        assert forall|i: int| 0 <= i < whole.len() implies is_digit_char(whole[i]) by {
            if i < whole.len() - 1 {
                assert(whole[i] == dec_rep(n / 10)[i]);
            }
        }
    }
}

/// Digit runs only gain value as digits are appended.
pub proof fn lemma_dec_val_mono(s: Seq<char>, i: int)
    requires
        0 <= i <= s.len(),
    ensures
        dec_val(s.take(i)) <= dec_val(s),
    decreases s.len() - i,
{
    if i == s.len() {
        assert(s.take(i) =~= s);
    } else {
        lemma_dec_val_mono(s, i + 1);
        assert(s.take(i + 1).drop_last() =~= s.take(i));
        assert(s.take(i + 1).last() == s[i]);
        assert(dec_val(s.take(i + 1)) == dec_val(s.take(i)) * 10 + digit_val(s[i]));
    }
}

/// The numeral of a `u64` parses back to the same value.
pub proof fn lemma_parse_roundtrip(n: u64)
    ensures
        spec_parse_u64(dec_rep(n as nat)) == Some(n),
{
    lemma_dec_rep_val(n as nat);
}

/// Converts a value below ten to its digit character.
fn digit_to_char(d: u64) -> (c: char)
    requires
        d < 10,
    ensures
        c == digit_char(d as nat),
{
    if d == 0 {
        '0'
    } else if d == 1 {
        '1'
    } else if d == 2 {
        '2'
    } else if d == 3 {
        '3'
    } else if d == 4 {
        '4'
    } else if d == 5 {
        '5'
    } else if d == 6 {
        '6'
    } else if d == 7 {
        '7'
    } else if d == 8 {
        '8'
    } else {
        '9'
    }
}

/// The value of a digit character, or nothing for any other character.
fn char_digit_value(c: char) -> (r: Option<u64>)
    ensures
        match r {
            Some(v) => is_digit_char(c) && v as nat == digit_val(c),
            None => !is_digit_char(c),
        },
{
    match c {
        '0' => Some(0),
        '1' => Some(1),
        '2' => Some(2),
        '3' => Some(3),
        '4' => Some(4),
        '5' => Some(5),
        '6' => Some(6),
        '7' => Some(7),
        '8' => Some(8),
        '9' => Some(9),
        _ => None,
    }
}

/// Formats a `u64` as its decimal numeral.
pub fn u64_to_string(n: u64) -> (r: String)
    ensures
        r@ == dec_rep(n as nat),
{
    let mut rev: Vec<char> = Vec::new();
    let d0 = n % 10;
    let c0 = digit_to_char(d0);
    rev.push(c0);
    let mut m: u64 = n / 10;
    proof {
        assert(rev@ =~= seq![digit_char(n as nat % 10)]);
        assert(rev@.reverse() =~= seq![digit_char(n as nat % 10)]);
        if n >= 10 {
            assert(dec_rep(n as nat) == dec_rep(n as nat / 10).push(digit_char(n as nat % 10)));
            assert(dec_rep(n as nat) =~= dec_rep(n as nat / 10) + rev@.reverse());
        } else {
            assert(dec_rep(n as nat) =~= rev@.reverse());
        }
    }
    while m > 0
        invariant
            m == 0 ==> dec_rep(n as nat) == rev@.reverse(),
            m > 0 ==> dec_rep(n as nat) == dec_rep(m as nat) + rev@.reverse(),
        decreases m,
    {
        let d = m % 10;
        let c = digit_to_char(d);
        rev.push(c);
        proof {
            lemma_reverse_push(rev@.drop_last(), c);
            assert(rev@.drop_last().push(c) =~= rev@);
            if m >= 10 {
                assert(dec_rep(m as nat) == dec_rep(m as nat / 10).push(digit_char(m as nat % 10)));
                assert(dec_rep(m as nat / 10).push(digit_char(m as nat % 10)) =~= dec_rep(
                    m as nat / 10,
                ) + seq![c]);
                assert(dec_rep(n as nat) =~= dec_rep(m as nat / 10) + (seq![c]
                    + rev@.drop_last().reverse()));
            } else {
                assert(dec_rep(m as nat) == seq![c]);
                assert(dec_rep(n as nat) =~= seq![c] + rev@.drop_last().reverse());
            }
        }
        m = m / 10;
    }
    let mut r = String::new();
    let mut i: usize = rev.len();
    while i > 0
        invariant
            i <= rev.len(),
            r@.len() == rev@.len() - i,
            forall|j: int| 0 <= j < r@.len() ==> r@[j] == rev@[rev@.len() - 1 - j],
        decreases i,
    {
        i = i - 1;
        let c = rev[i];
        push_char(&mut r, c);
    }
    proof {
        assert(r@ =~= rev@.reverse());
    }
    r
}

/// Formats a `u16` as its decimal numeral.
pub fn u16_to_string(n: u16) -> (r: String)
    ensures
        r@ == dec_rep(n as nat),
{
    u64_to_string(n as u64)
}

/// Parses a decimal numeral as a `u64`.
pub fn parse_u64(s: &str) -> (r: Option<u64>)
    ensures
        r == spec_parse_u64(s@),
{
    let n = s.unicode_len();
    if n == 0 {
        return None;
    }
    let mut i: usize = 0;
    let mut acc: u64 = 0;
    while i < n
        invariant
            n == s@.len(),
            i <= n,
            all_digits(s@.take(i as int)),
            acc as nat == dec_val(s@.take(i as int)),
        decreases n - i,
    {
        let c = s.get_char(i);
        let d = match char_digit_value(c) {
            Some(d) => d,
            None => {
                return None;
            },
        };
        proof {
            assert(s@.take(i as int + 1).drop_last() =~= s@.take(i as int));
            assert(s@.take(i as int + 1).last() == s@[i as int]);
            assert(dec_val(s@.take(i as int + 1)) == dec_val(s@.take(i as int)) * 10 + digit_val(
                c,
            ));
        }
        let limit = (u64::MAX - d) / 10;
        if acc > limit {
            proof {
                let x = (u64::MAX - d) as int;
                vstd::arithmetic::div_mod::lemma_fundamental_div_mod(x, 10);
                assert(acc * 10 >= (limit + 1) * 10) by (nonlinear_arith)
                    requires
                        acc >= limit + 1,
                ;
                assert(dec_val(s@.take(i as int + 1)) > u64::MAX);
                lemma_dec_val_mono(s@, i as int + 1);
            }
            return None;
        }
        proof {
            let x = (u64::MAX - d) as int;
            vstd::arithmetic::div_mod::lemma_fundamental_div_mod(x, 10);
            assert(acc * 10 <= limit * 10) by (nonlinear_arith)
                requires
                    acc <= limit,
            ;
        }
        acc = acc * 10 + d;
        i = i + 1;
    }
    proof {
        assert(s@.take(n as int) =~= s@);
    }
    Some(acc)
}

/// Parses a decimal numeral as a `u16`.
pub fn parse_u16(s: &str) -> (r: Option<u16>)
    ensures
        r == spec_parse_u16(s@),
{
    match parse_u64(s) {
        Some(v) => {
            if v <= 65535 {
                Some(v as u16)
            } else {
                None
            }
        },
        None => {
            proof {
                if s@.len() > 0 && all_digits(s@) {
                    assert(dec_val(s@) > u64::MAX);
                }
            }
            None
        },
    }
}

} // verus!
