//! Verified decimal integer parsing and rendering.
//!
//! Validation rules treat certain strings as numbers; error messages echo
//! numeric values back as text. Both directions are specified exactly.

use vstd::prelude::*;

verus! {

/// Whether `c` is an ASCII decimal digit.
pub open spec fn is_digit(c: char) -> bool {
    '0' <= c && c <= '9'
}

/// Numeric value of an ASCII decimal digit.
pub open spec fn digit_val(c: char) -> int {
    c as int - '0' as int
}

/// Whether every character of `s` is an ASCII decimal digit.
pub open spec fn all_digits(s: Seq<char>) -> bool {
    forall|i: int| 0 <= i < s.len() ==> is_digit(#[trigger] s[i])
}

/// Value of a non-empty digit string read in base ten.
pub open spec fn digits_val(s: Seq<char>) -> int
    decreases s.len(),
{
    if s.len() == 0 {
        0
    } else {
        digits_val(s.drop_last()) * 10 + digit_val(s.last())
    }
}

/// The digit part of an integer literal: everything after an optional
/// leading `+` or `-` sign.
pub open spec fn digit_part(s: Seq<char>) -> Seq<char> {
    if s.len() > 0 && (s[0] == '+' || s[0] == '-') {
        s.subrange(1, s.len() as int)
    } else {
        s
    }
}

/// Whether `s` starts with a `-` sign.
pub open spec fn has_minus_sign(s: Seq<char>) -> bool {
    s.len() > 0 && s[0] == '-'
}

/// The mathematical value `s` denotes when it is a well-formed integer
/// literal (optional sign, then at least one digit), ignoring range.
pub open spec fn literal_val(s: Seq<char>) -> int {
    if has_minus_sign(s) {
        -digits_val(digit_part(s))
    } else {
        digits_val(digit_part(s))
    }
}

/// Whether `s` is a well-formed integer literal, ignoring range.
pub open spec fn is_int_literal(s: Seq<char>) -> bool {
    digit_part(s).len() > 0 && all_digits(digit_part(s))
}

/// The result of parsing `s` as a 64-bit signed integer: the denoted
/// value when `s` is a well-formed literal in range, `None` otherwise.
pub open spec fn parsed_i64(s: Seq<char>) -> Option<int> {
    if is_int_literal(s) && i64::MIN <= literal_val(s) <= i64::MAX {
        Some(literal_val(s))
    } else {
        None
    }
}

/// Parses `s` as a 64-bit signed integer: an optional `+` or `-` sign,
/// then one or more ASCII decimal digits, the whole string in range.
pub fn parse_i64(s: &str) -> (r: Option<i64>)
    ensures
        match r {
            Some(v) => parsed_i64(s@) == Some(v as int),
            None => parsed_i64(s@) is None,
        },
{
    let len = s.unicode_len();
    if len == 0 {
        return None;
    }
    let first = s.get_char(0);
    let neg = first == '-';
    let start: usize = if first == '-' || first == '+' {
        1
    } else {
        0
    };
    proof {
        assert(digit_part(s@) =~= s@.subrange(start as int, s@.len() as int));
    }
    if start == len {
        return None;
    }
    let mut mag: u128 = 0;
    let mut i: usize = start;
    while i < len
        invariant
            start <= i <= len,
            len == s@.len(),
            start < len,
            start == 1 ==> (s@[0] == '+' || s@[0] == '-'),
            start == 0 ==> !(s@[0] == '+' || s@[0] == '-'),
            neg == has_minus_sign(s@),
            digit_part(s@) == s@.subrange(start as int, s@.len() as int),
            all_digits(s@.subrange(start as int, i as int)),
            mag == digits_val(s@.subrange(start as int, i as int)),
            mag <= 0x7fffffffffffffffu128 + 1,
        decreases len - i,
    {
        let c = s.get_char(i);
        let cv: u32 = c as u32;
        if cv < 48 || cv > 57 {
            proof {
                assert(!is_digit(digit_part(s@)[i - start]));
            }
            return None;
        }
        let d: u128 = (cv - 48) as u128;
        proof {
            let pre = s@.subrange(start as int, i as int);
            let cur = s@.subrange(start as int, i as int + 1);
            assert(cur.drop_last() =~= pre);
            assert(cur.last() == c);
            assert(digit_val(c) == d);
            assert(digits_val(cur) == mag * 10 + d);
        }
        if mag > (0x8000000000000000u128 - d) / 10 {
            // The accumulated magnitude exceeds the 64-bit range, so the
            // whole literal is out of range whatever digits follow.
            proof {
                let bound = 0x8000000000000000u128 as int;
                let q = (bound - d) / 10;
                assert(q * 10 + (bound - d) % 10 == bound - d);
                assert(mag * 10 >= (q + 1) * 10);
                assert((q + 1) * 10 == q * 10 + 10);
                let cur = s@.subrange(start as int, i as int + 1);
                assert(digits_val(cur) > bound);
                if is_int_literal(s@) {
                    lemma_digits_val_grows(digit_part(s@), i + 1 - start);
                    assert(cur =~= digit_part(s@).subrange(0, i + 1 - start));
                }
            }
            return None;
        }
        proof {
            let bound = 0x8000000000000000u128 as int;
            let q = (bound - d) / 10;
            assert(q * 10 + (bound - d) % 10 == bound - d);
            assert(mag * 10 <= q * 10);
            assert(mag * 10 + d <= bound);
        }
        mag = mag * 10 + d;
        i += 1;
    }
    proof {
        assert(digit_part(s@) =~= s@.subrange(start as int, len as int));
    }
    if neg {
        if mag > 0x8000000000000000u128 {
            return None;
        }
        Some((-(mag as i128)) as i64)
    } else {
        if mag > 0x7fffffffffffffffu128 {
            return None;
        }
        Some(mag as i64)
    }
}

/// A digit string's value never shrinks as more digits are read: the
/// value of a prefix is at most the value of the whole.
proof fn lemma_digits_val_grows(s: Seq<char>, n: int)
    requires
        0 <= n <= s.len(),
        all_digits(s),
    ensures
        digits_val(s.subrange(0, n)) <= digits_val(s),
        digits_val(s) >= 0,
    decreases s.len(),
{
    if s.len() == 0 {
        assert(s.subrange(0, n) =~= s);
    } else if n == s.len() {
        assert(s.subrange(0, n) =~= s);
        assert(all_digits(s.drop_last()));
        lemma_digits_val_grows(s.drop_last(), n - 1);
    } else {
        assert(all_digits(s.drop_last()));
        assert(s.subrange(0, n) =~= s.drop_last().subrange(0, n));
        lemma_digits_val_grows(s.drop_last(), n);
        assert(digit_val(s.last()) >= 0);
        assert(digits_val(s.drop_last()) * 10 >= digits_val(s.drop_last())) by (nonlinear_arith)
            requires
                digits_val(s.drop_last()) >= 0,
        ;
    }
}

/// The decimal digit sequence of a non-negative integer, most
/// significant digit first.
pub open spec fn dec_digits(n: int) -> Seq<char>
    decreases n,
{
    if n < 10 {
        seq![digit_char(n)]
    } else {
        dec_digits(n / 10) + seq![digit_char(n % 10)]
    }
}

/// The character for one decimal digit.
pub open spec fn digit_char(n: int) -> char {
    if n == 0 {
        '0'
    } else if n == 1 {
        '1'
    } else if n == 2 {
        '2'
    } else if n == 3 {
        '3'
    } else if n == 4 {
        '4'
    } else if n == 5 {
        '5'
    } else if n == 6 {
        '6'
    } else if n == 7 {
        '7'
    } else if n == 8 {
        '8'
    } else {
        '9'
    }
}

/// The decimal rendering of a 64-bit signed integer: a `-` sign when
/// negative, then the digits of the magnitude.
pub open spec fn rendered_i64(v: int) -> Seq<char> {
    if v < 0 {
        seq!['-'] + dec_digits(-v)
    } else {
        dec_digits(v)
    }
}

/// Renders one decimal digit as a string slice.
fn digit_str(d: u128) -> (s: &'static str)
    requires
        d < 10,
    ensures
        s@ == seq![digit_char(d as int)],
{
    proof {
        reveal_strlit("0");
        reveal_strlit("1");
        reveal_strlit("2");
        reveal_strlit("3");
        reveal_strlit("4");
        reveal_strlit("5");
        reveal_strlit("6");
        reveal_strlit("7");
        reveal_strlit("8");
        reveal_strlit("9");
    }
    let s = if d == 0 {
        "0"
    } else if d == 1 {
        "1"
    } else if d == 2 {
        "2"
    } else if d == 3 {
        "3"
    } else if d == 4 {
        "4"
    } else if d == 5 {
        "5"
    } else if d == 6 {
        "6"
    } else if d == 7 {
        "7"
    } else if d == 8 {
        "8"
    } else {
        "9"
    };
    proof {
        assert(s@ =~= seq![digit_char(d as int)]);
    }
    s
}

/// Renders a non-negative integer in decimal.
fn render_mag(n: u128) -> (s: String)
    ensures
        s@ == dec_digits(n as int),
    decreases n,
{
    if n < 10 {
        digit_str(n).to_owned()
    } else {
        let rest = render_mag(n / 10);
        let s = rest.concat(digit_str(n % 10));
        s
    }
}

/// Renders a 64-bit signed integer in decimal.
pub fn render_i64(v: i64) -> (s: String)
    ensures
        s@ == rendered_i64(v as int),
{
    if v < 0 {
        let mag: u128 = (-(v as i128)) as u128;
        let sign: String = "-".to_owned();
        proof {
            reveal_strlit("-");
            assert(sign@ =~= seq!['-']);
        }
        sign.concat(render_mag(mag).as_str())
    } else {
        render_mag(v as u128)
    }
}

/// Renders an unsigned machine integer in decimal.
pub fn render_usize(n: usize) -> (s: String)
    ensures
        s@ == dec_digits(n as int),
{
    render_mag(n as u128)
}

/// The rendering of a boolean: the literal word `true` or `false`.
pub open spec fn rendered_bool(b: bool) -> Seq<char> {
    if b {
        "true"@
    } else {
        "false"@
    }
}

/// Renders a boolean as the literal word `true` or `false`.
pub fn render_bool(b: bool) -> (s: String)
    ensures
        s@ == rendered_bool(b),
{
    if b {
        "true".to_owned()
    } else {
        "false".to_owned()
    }
}

} // verus!
