//! Decimal rendering and parsing of integers, used by the engine command
//! builder and by the answer parser for the engine's score tokens.

use vstd::prelude::*;

verus! {

/// The decimal digit character for a value below ten.
pub open spec fn digit_char(d: int) -> char {
    if d == 0 {
        '0'
    } else if d == 1 {
        '1'
    } else if d == 2 {
        '2'
    } else if d == 3 {
        '3'
    } else if d == 4 {
        '4'
    } else if d == 5 {
        '5'
    } else if d == 6 {
        '6'
    } else if d == 7 {
        '7'
    } else if d == 8 {
        '8'
    } else {
        '9'
    }
}

/// The decimal rendering of a non-negative integer, most significant
/// digit first, with no leading zeros (a single `'0'` for zero).
pub open spec fn dec_chars(n: int) -> Seq<char>
    decreases n,
{
    if n < 10 {
        seq![digit_char(n)]
    } else {
        dec_chars(n / 10) + seq![digit_char(n % 10)]
    }
}

/// Whether `c` is a decimal digit character.
pub open spec fn is_digit(c: char) -> bool {
    48 <= c as int && c as int <= 57
}

/// The value of a decimal digit character.
pub open spec fn digit_val(c: char) -> int {
    c as int - 48
}

/// Whether every character of `s` is a decimal digit.
pub open spec fn all_digits(s: Seq<char>) -> bool {
    forall|i: int| 0 <= i < s.len() ==> is_digit(s[i])
}

/// The value of a sequence of decimal digit characters, most significant
/// digit first.
pub open spec fn dec_value(s: Seq<char>) -> int
    decreases s.len(),
{
    if s.len() == 0 {
        0
    } else {
        dec_value(s.drop_last()) * 10 + digit_val(s.last())
    }
}

/// Whether `s` is a signed decimal token this library accepts: an optional
/// leading minus sign, then one to nine digit characters. Nine digits keep
/// every accepted value well inside `i32` range.
pub open spec fn dec_token_wf(s: Seq<char>) -> bool {
    if s.len() > 0 && s[0] == '-' {
        1 <= s.len() - 1 <= 9 && all_digits(s.skip(1))
    } else {
        1 <= s.len() <= 9 && all_digits(s)
    }
}

/// The signed value of a well-formed decimal token.
pub open spec fn dec_token_value(s: Seq<char>) -> int {
    if s.len() > 0 && s[0] == '-' {
        -dec_value(s.skip(1))
    } else {
        dec_value(s)
    }
}

fn append_digit(s: &mut String, d: u64)
    requires
        d < 10,
    ensures
        final(s)@ == old(s)@ + seq![digit_char(d as int)],
{
    proof {
        reveal_strlit("0");
        reveal_strlit("1");
        reveal_strlit("2");
        reveal_strlit("3");
        reveal_strlit("4");
        reveal_strlit("5");
        reveal_strlit("6");
        reveal_strlit("7");
        reveal_strlit("8");
        reveal_strlit("9");
    }
    if d == 0 {
        s.append("0");
    } else if d == 1 {
        s.append("1");
    } else if d == 2 {
        s.append("2");
    } else if d == 3 {
        s.append("3");
    } else if d == 4 {
        s.append("4");
    } else if d == 5 {
        s.append("5");
    } else if d == 6 {
        s.append("6");
    } else if d == 7 {
        s.append("7");
    } else if d == 8 {
        s.append("8");
    } else {
        s.append("9");
    }
    proof {
        assert(final(s)@ =~= old(s)@ + seq![digit_char(d as int)]);
    }
}

/// Appends the decimal rendering of `n` to `s`.
pub fn append_dec(s: &mut String, n: u64)
    ensures
        final(s)@ == old(s)@ + dec_chars(n as int),
    decreases n,
{
    if n >= 10 {
        append_dec(s, n / 10);
        append_digit(s, n % 10);
        proof {
            assert(final(s)@ =~= old(s)@ + dec_chars(n as int));
        }
    } else {
        append_digit(s, n);
    }
}

/// Parses a signed decimal token. Returns the token's value exactly when
/// the token is well-formed (optional minus sign, one to nine digits).
pub fn parse_dec_token(s: &str) -> (r: Option<i32>)
    ensures
        r is Some <==> dec_token_wf(s@),
        r is Some ==> r->0 == dec_token_value(s@),
{
    let n = s.unicode_len();
    let neg = n > 0 && s.get_char(0) == '-';
    let start: usize = if neg { 1 } else { 0 };
    if n - start < 1 || n - start > 9 {
        proof {
            if neg {
                assert(!(1 <= s@.len() - 1 <= 9));
            }
        }
        return None;
    }
    let mut acc: i32 = 0;
    let mut i: usize = start;
    while i < n
        invariant
            start <= i <= n,
            n == s@.len(),
            start <= 1,
            1 <= n - start <= 9,
            neg ==> s@[0] == '-' && start == 1,
            !neg ==> start == 0 && (n > 0 ==> s@[0] != '-'),
            all_digits(s@.subrange(start as int, i as int)),
            0 <= acc,
            acc == dec_value(s@.subrange(start as int, i as int)),
            acc < pow10(i - start),
        decreases n - i,
    {
        let c = s.get_char(i);
        let cv = c as u32;
        if cv < 48 || cv > 57 {
            proof {
                assert(s@.skip(start as int)[i - start] == s@[i as int]);
                assert(!is_digit(s@[i as int]));
            }
            return None;
        }
        proof {
            assert(pow10(i - start) <= 100000000) by {
                lemma_pow10_mono(i - start, 8);
                assert(pow10(8) == 100000000) by {
                    reveal_with_fuel(pow10, 10);
                }
            }
            assert(s@.subrange(start as int, i + 1).drop_last() =~= s@.subrange(
                start as int,
                i as int,
            ));
        }
        acc = acc * 10 + (cv - 48) as i32;
        i = i + 1;
    }
    proof {
        assert(s@.subrange(start as int, n as int) =~= s@.skip(start as int));
        if !neg {
            assert(s@.skip(0) =~= s@);
        }
    }
    if neg {
        Some(0 - acc)
    } else {
        Some(acc)
    }
}

/// Ten to the power `k`.
pub open spec fn pow10(k: int) -> int
    decreases k,
{
    if k <= 0 {
        1
    } else {
        10 * pow10(k - 1)
    }
}

proof fn lemma_pow10_mono(a: int, b: int)
    requires
        a <= b,
    ensures
        pow10(a) <= pow10(b),
    decreases b - a,
{
    if a < b && b > 0 {
        lemma_pow10_mono(a, b - 1);
        assert(pow10(b) == 10 * pow10(b - 1));
        assert(pow10(b - 1) >= 1) by {
            lemma_pow10_pos(b - 1);
        }
    }
}

proof fn lemma_pow10_pos(k: int)
    ensures
        pow10(k) >= 1,
    decreases (if k <= 0 { 0 } else { k }),
{
    if k > 0 {
        lemma_pow10_pos(k - 1);
    }
}

} // verus!
