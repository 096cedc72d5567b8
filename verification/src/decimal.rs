use vstd::prelude::*;
use vstd::string::StrSliceExecFns;
use vstd::string::StringExecFns;

verus! {

/// Whether a character is a decimal digit.
pub open spec fn is_digit(c: char) -> bool {
    '0' <= c <= '9'
}

/// The numeric value of a decimal digit character.
pub open spec fn digit_value(c: char) -> int {
    c as int - '0' as int
}

/// Whether every character of the sequence is a decimal digit.
pub open spec fn all_digits(s: Seq<char>) -> bool {
    forall|i: int| 0 <= i < s.len() ==> is_digit(#[trigger] s[i])
}

/// The number that a sequence of decimal digits denotes.
pub open spec fn digits_value(s: Seq<char>) -> int
    decreases s.len(),
{
    if s.len() == 0 {
        0
    } else {
        digits_value(s.drop_last()) * 10 + digit_value(s.last())
    }
}

/// Whether the sequence begins with an explicit sign.
pub open spec fn has_sign(s: Seq<char>) -> bool {
    s.len() > 0 && (s[0] == '+' || s[0] == '-')
}

/// The digits of a decimal integer literal: everything past the sign.
pub open spec fn literal_digits(s: Seq<char>) -> Seq<char> {
    if has_sign(s) {
        s.subrange(1, s.len() as int)
    } else {
        s
    }
}

/// Whether the sequence is a decimal integer literal: an optional sign
/// followed by one or more digits, and nothing else.
pub open spec fn is_int_literal(s: Seq<char>) -> bool {
    literal_digits(s).len() > 0 && all_digits(literal_digits(s))
}

/// The integer that a decimal integer literal denotes.
pub open spec fn int_literal_value(s: Seq<char>) -> int {
    if has_sign(s) && s[0] == '-' {
        digits_value(literal_digits(s)) * -1
    } else {
        digits_value(literal_digits(s))
    }
}

/// Whether the sequence is a decimal integer literal whose value an i32
/// can hold.
pub open spec fn is_i32_literal(s: Seq<char>) -> bool {
    is_int_literal(s) && i32::MIN <= int_literal_value(s) <= i32::MAX
}

/// Appending a digit multiplies the denoted number by ten and adds the
/// digit's value.
proof fn lemma_digits_value_push(s: Seq<char>, c: char)
    ensures
        digits_value(s.push(c)) == digits_value(s) * 10 + digit_value(c),
{
    assert(s.push(c).drop_last() =~= s);
    assert(s.push(c).last() == c);
}

/// Reads a decimal integer literal: an optional sign and then one or
/// more digits, nothing else. Returns its value where the text is such
/// a literal and the value fits an i32; refuses the text otherwise.
pub fn parse_i32(s: &str) -> (r: Option<i32>)
    ensures
        is_i32_literal(s@) ==> (r matches Some(n) && n == int_literal_value(s@)),
        !is_i32_literal(s@) ==> r is None,
{
    let len: usize = s.unicode_len();
    if len == 0 {
        return None;
    }
    let first: char = s.get_char(0);
    let negative: bool = first == '-';
    let start: usize = if first == '-' || first == '+' {
        1
    } else {
        0
    };
    if start == len {
        // A sign alone has no digits.
        assert(literal_digits(s@).len() == 0);
        return None;
    }
    let mut i: usize = start;
    let mut val: u64 = 0;
    let mut too_big: bool = false;
    while i < len
        invariant
            start <= i <= len,
            len == s@.len(),
            has_sign(s@) ==> start == 1,
            !has_sign(s@) ==> start == 0,
            all_digits(s@.subrange(start as int, i as int)),
            !too_big ==> val == digits_value(s@.subrange(start as int, i as int)) && val
                <= 0x8000_0000,
            too_big ==> digits_value(s@.subrange(start as int, i as int)) > 0x8000_0000,
        decreases len - i,
    {
        let c: char = s.get_char(i);
        if !(c >= '0' && c <= '9') {
            // One character past the sign is no digit, so the whole text
            // is no integer literal.
            assert(literal_digits(s@)[i - start] == s@[i as int]);
            return None;
        }
        let ghost prefix = s@.subrange(start as int, i as int);
        proof {
            assert(s@.subrange(start as int, i + 1) =~= prefix.push(s@[i as int]));
            lemma_digits_value_push(prefix, s@[i as int]);
        }
        let d: u32 = (c as u32) - ('0' as u32);
        if !too_big {
            let nv: u64 = val * 10 + (d as u64);
            if nv > 0x8000_0000 {
                too_big = true;
            } else {
                val = nv;
            }
        }
        i += 1;
    }
    proof {
        assert(s@.subrange(start as int, len as int) =~= literal_digits(s@));
    }
    if too_big {
        return None;
    }
    if negative {
        if val == 0x8000_0000 {
            Some(i32::MIN)
        } else {
            Some(-(val as i32))
        }
    } else {
        if val > 0x7FFF_FFFF {
            None
        } else {
            Some(val as i32)
        }
    }
}

/// The decimal digit character of a value below ten.
pub open spec fn digit_char(d: int) -> char {
    if d == 0 {
        '0'
    } else if d == 1 {
        '1'
    } else if d == 2 {
        '2'
    } else if d == 3 {
        '3'
    } else if d == 4 {
        '4'
    } else if d == 5 {
        '5'
    } else if d == 6 {
        '6'
    } else if d == 7 {
        '7'
    } else if d == 8 {
        '8'
    } else {
        '9'
    }
}

/// The decimal digits of a nonnegative number, most significant first,
/// without a sign and without leading zeroes (a lone zero for zero).
pub open spec fn dec_digits(n: int) -> Seq<char>
    decreases n,
{
    if n < 10 {
        seq![digit_char(n)]
    } else {
        dec_digits(n / 10).push(digit_char(n % 10))
    }
}

/// The decimal rendering of an integer: a minus sign before the digits
/// of its magnitude where it is negative.
pub open spec fn int_digits(n: int) -> Seq<char> {
    if n < 0 {
        seq!['-'] + dec_digits(n * -1)
    } else {
        dec_digits(n)
    }
}

/// The one-character text of a value below ten.
fn digit_str(d: u32) -> (r: &'static str)
    requires
        d < 10,
    ensures
        r@ == seq![digit_char(d as int)],
{
    let r: &'static str = match d {
        0 => "0",
        1 => "1",
        2 => "2",
        3 => "3",
        4 => "4",
        5 => "5",
        6 => "6",
        7 => "7",
        8 => "8",
        _ => "9",
    };
    proof {
        reveal_strlit("0");
        reveal_strlit("1");
        reveal_strlit("2");
        reveal_strlit("3");
        reveal_strlit("4");
        reveal_strlit("5");
        reveal_strlit("6");
        reveal_strlit("7");
        reveal_strlit("8");
        reveal_strlit("9");
        assert(r@ =~= seq![digit_char(d as int)]);
    }
    r
}

/// Renders a nonnegative number in decimal.
fn u64_dec_string(n: u64) -> (r: String)
    ensures
        r@ == dec_digits(n as int),
    decreases n,
{
    if n < 10 {
        String::from_str(digit_str(n as u32))
    } else {
        let mut s = u64_dec_string(n / 10);
        s.append(digit_str((n % 10) as u32));
        proof {
            assert(dec_digits((n / 10) as int) + seq![digit_char((n % 10) as int)] =~= dec_digits(
                (n / 10) as int,
            ).push(digit_char((n % 10) as int)));
        }
        s
    }
}

/// Renders an integer in decimal, a minus sign first where it is
/// negative.
pub fn i32_dec_string(n: i32) -> (r: String)
    ensures
        r@ == int_digits(n as int),
{
    if n < 0 {
        let m: u64 = (-(n as i64)) as u64;
        let mut s = String::from_str("-");
        let d = u64_dec_string(m);
        s.append(d.as_str());
        proof {
            reveal_strlit("-");
            assert("-"@ =~= seq!['-']);
        }
        s
    } else {
        u64_dec_string(n as u64)
    }
}

} // verus!
