use vstd::prelude::*;
use vstd::string::StringExecFns;

use crate::decimal::int_digits;
use crate::decimal::int_literal_value;
use crate::decimal::is_i32_literal;
use crate::decimal::i32_dec_string;
use crate::decimal::parse_i32;

verus! {

/// The reply given for a number outside the percentage range.
pub open spec fn out_of_range_message(n: int) -> Seq<char> {
    "Value "@ + int_digits(n) + " is out of range (0-100)"@
}

/// The reply given for text that is no decimal integer.
pub open spec fn invalid_number_message(s: Seq<char>) -> Seq<char> {
    "'"@ + s + "' is not a valid number"@
}

/// Reads a percentage. The text must be a decimal integer literal whose
/// value lies between zero and one hundred; that value is returned. A
/// number outside the range and text that is no number are each refused
/// with a message that carries the offending input.
pub fn parse_percentage(input: &str) -> (r: Result<u8, String>)
    ensures
        is_i32_literal(input@) && 0 <= int_literal_value(input@) <= 100 ==> (r matches Ok(v) && v
            == int_literal_value(input@)),
        is_i32_literal(input@) && !(0 <= int_literal_value(input@) <= 100) ==> (r matches Err(m)
            && m@ == out_of_range_message(int_literal_value(input@))),
        !is_i32_literal(input@) ==> (r matches Err(m) && m@ == invalid_number_message(input@)),
{
    match parse_i32(input) {
        Some(n) => {
            if 0 <= n && n <= 100 {
                Ok(n as u8)
            } else {
                let mut s = String::from_str("Value ");
                let num = i32_dec_string(n);
                s.append(num.as_str());
                s.append(" is out of range (0-100)");
                Err(s)
            }
        },
        None => {
            let mut s = String::from_str("'");
            s.append(input);
            s.append("' is not a valid number");
            Err(s)
        },
    }
}

} // verus!
