//! Decimal text of integers, both ways: what `to_string` gives for an
//! integer, and what `str::parse::<usize>` accepts.

use vstd::prelude::*;
use crate::text::push_char;

verus! {

/// The character of a decimal digit.
pub open spec fn digit_char(d: nat) -> char
    recommends
        d < 10,
{
    (48 + d) as char
}

/// Whether `c` is one of `'0'..='9'`.
pub open spec fn is_digit(c: char) -> bool {
    48 <= (c as u32) <= 57
}

/// The value of a decimal digit character.
pub open spec fn digit_value(c: char) -> nat {
    ((c as u32) - 48) as nat
}

/// The decimal text of `n`, without sign or leading zeros.
pub open spec fn decimal(n: nat) -> Seq<char>
    decreases n,
{
    if n < 10 {
        seq![digit_char(n)]
    } else {
        decimal(n / 10).push(digit_char(n % 10))
    }
}

/// The decimal text of a signed integer, as `to_string` writes it.
pub open spec fn signed_decimal(n: int) -> Seq<char> {
    if n < 0 {
        seq!['-'] + decimal((-n) as nat)
    } else {
        decimal(n as nat)
    }
}

/// Whether every character of `s` is a decimal digit.
pub open spec fn all_digits(s: Seq<char>) -> bool {
    forall|i: int| 0 <= i < s.len() ==> is_digit(#[trigger] s[i])
}

/// The number that a sequence of decimal digits denotes.
pub open spec fn digits_value(s: Seq<char>) -> nat
    decreases s.len(),
{
    if s.len() == 0 {
        0
    } else {
        digits_value(s.drop_last()) * 10 + digit_value(s.last())
    }
}

/// `s` without one leading `+`.
pub open spec fn unsigned_body(s: Seq<char>) -> Seq<char> {
    if s.len() > 0 && s[0] == '+' {
        s.drop_first()
    } else {
        s
    }
}

/// What `str::parse::<usize>` gives: an optional `+`, then one or more
/// decimal digits whose value fits in `usize`.
pub open spec fn parse_usize(s: Seq<char>) -> Option<usize> {
    let body = unsigned_body(s);
    if body.len() > 0 && all_digits(body) && digits_value(body) <= usize::MAX {
        Some(digits_value(body) as usize)
    } else {
        None
    }
}

fn digit_of(d: u64) -> (c: char)
    requires
        d < 10,
    ensures
        c == digit_char(d as nat),
        is_digit(c),
        digit_value(c) == d,
{
    let b = (d as u8) + 48;
    b as char
}

proof fn lemma_decimal_digits(n: nat)
    ensures
        all_digits(decimal(n)),
        digits_value(decimal(n)) == n,
        decimal(n).len() >= 1,
        decimal(n)[0] != '+',
    decreases n,
{
    if n < 10 {
        let s = decimal(n);
        assert(s.drop_last() =~= Seq::<char>::empty());
        assert(digits_value(Seq::<char>::empty()) == 0);
        assert(digits_value(s) == digits_value(s.drop_last()) * 10 + digit_value(s.last()));
    } else {
        lemma_decimal_digits(n / 10);
        let s = decimal(n);
        assert(s.drop_last() =~= decimal(n / 10));
        assert forall|i: int| 0 <= i < s.len() implies is_digit(#[trigger] s[i]) by {
            if i < s.len() - 1 {
                assert(s[i] == decimal(n / 10)[i]);
            }
        }
        assert(s[0] == decimal(n / 10)[0]);
        assert(digits_value(s) == digits_value(s.drop_last()) * 10 + digit_value(s.last()));
        assert(n == (n / 10) * 10 + n % 10);
    }
}

/// The decimal text of `n`, most significant digit first.
pub fn u64_to_decimal(n: u64) -> (out: String)
    ensures
        out@ == decimal(n as nat),
    decreases n,
{
    if n < 10 {
        let mut out = String::new();
        push_char(&mut out, digit_of(n));
        assert(out@ =~= seq![digit_char(n as nat)]);
        out
    } else {
        let mut out = u64_to_decimal(n / 10);
        push_char(&mut out, digit_of(n % 10));
        out
    }
}

/// The decimal text of `n` (`usize::to_string`).
pub fn usize_to_decimal(n: usize) -> (out: String)
    ensures
        out@ == decimal(n as nat),
{
    u64_to_decimal(n as u64)
}

/// The decimal text of `n` (`i64::to_string`).
pub fn i64_to_decimal(n: i64) -> (out: String)
    ensures
        out@ == signed_decimal(n as int),
{
    if n < 0 {
        let magnitude: u64 = if n == i64::MIN {
            9223372036854775808u64
        } else {
            (-n) as u64
        };
        let digits = u64_to_decimal(magnitude);
        let mut out = String::new();
        push_char(&mut out, '-');
        let joined = crate::text::concat(out.as_str(), digits.as_str());
        joined
    } else {
        u64_to_decimal(n as u64)
    }
}

/// `str::parse::<usize>` on characters.
pub fn parse_usize_chars(s: &[char]) -> (r: Option<usize>)
    ensures
        r == parse_usize(s@),
{
    let start: usize = if s.len() > 0 && s[0] == '+' {
        1
    } else {
        0
    };
    let ghost body = unsigned_body(s@);
    assert(body =~= s@.skip(start as int));
    if start >= s.len() {
        return None;
    }
    let mut value: usize = 0;
    let mut i = start;
    assert(s@.subrange(start as int, start as int) =~= Seq::<char>::empty());
    while i < s.len()
        invariant
            start <= i <= s@.len(),
            body == s@.skip(start as int),
            body == unsigned_body(s@),
            all_digits(s@.subrange(start as int, i as int)),
            value == digits_value(s@.subrange(start as int, i as int)),
        decreases s@.len() - i,
    {
        let c = s[i];
        let ghost pre = s@.subrange(start as int, i as int);
        let ghost next = s@.subrange(start as int, i as int + 1);
        assert(next.drop_last() =~= pre);
        if !(48 <= (c as u32) && (c as u32) <= 57) {
            assert(body[i - start] == c);
            assert(!is_digit(body[i - start]));
            return None;
        }
        let d = ((c as u32) - 48) as usize;
        assert(digits_value(next) == value * 10 + d);
        if value > (usize::MAX - d) / 10 {
            assert(value * 10 + d > usize::MAX) by (nonlinear_arith)
                requires
                    value > (usize::MAX - d) / 10,
                    d < 10,
            ;
            proof {
                if all_digits(body) {
                    lemma_digits_prefix_le(body, i - start + 1);
                    assert(body.take(i - start + 1) =~= next);
                }
            }
            return None;
        }
        value = value * 10 + d;
        assert forall|k: int| 0 <= k < next.len() implies is_digit(#[trigger] next[k]) by {
            if k < pre.len() {
                assert(next[k] == pre[k]);
            }
        }
        i = i + 1;
    }
    assert(s@.subrange(start as int, s@.len() as int) =~= body);
    Some(value)
}

proof fn lemma_digits_prefix_le(s: Seq<char>, k: int)
    requires
        0 <= k <= s.len(),
        all_digits(s),
    ensures
        digits_value(s.take(k)) <= digits_value(s),
    decreases s.len(),
{
    if k < s.len() {
        assert(s.drop_last().take(k) =~= s.take(k));
        assert forall|i: int| 0 <= i < s.drop_last().len() implies is_digit(
            #[trigger] s.drop_last()[i],
        ) by {
            assert(s.drop_last()[i] == s[i]);
        }
        lemma_digits_prefix_le(s.drop_last(), k);
    } else {
        assert(s.take(k) =~= s);
    }
}

/// `str::parse::<usize>` reads back what `usize::to_string` writes.
pub proof fn law_parse_reads_decimal(n: usize)
    ensures
        parse_usize(decimal(n as nat)) == Some(n),
{
    lemma_decimal_digits(n as nat);
}

} // verus!
