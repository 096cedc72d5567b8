use vstd::prelude::*;
use vstd::string::StringExecFns;
use vstd::arithmetic::div_mod::lemma_div_basics;
use vstd::arithmetic::div_mod::lemma_div_is_ordered;
use vstd::arithmetic::div_mod::lemma_div_is_ordered_by_denominator;
use vstd::arithmetic::div_mod::lemma_div_nonincreasing;
use vstd::arithmetic::div_mod::lemma_div_pos_is_pos;

verus! {

/// The quotient rounded toward zero, as machine integer division
/// computes it; defined for a nonzero divisor.
pub open spec fn div_trunc(a: int, b: int) -> int {
    if a >= 0 && b > 0 {
        a / b
    } else if a < 0 && b < 0 {
        (a * -1) / (b * -1)
    } else if a < 0 {
        ((a * -1) / b) * -1
    } else {
        (a / (b * -1)) * -1
    }
}

/// The truncated quotient of two machine integers, each taken within the
/// range of i32, stays within that range, except at the one overflowing
/// pair of the smallest value and minus one.
proof fn lemma_div_trunc_in_i32_range(a: int, b: int)
    requires
        i32::MIN <= a <= i32::MAX,
        i32::MIN <= b <= i32::MAX,
        b != 0,
        !(a == i32::MIN && b == -1),
    ensures
        i32::MIN <= div_trunc(a, b) <= i32::MAX,
{
    if a >= 0 && b > 0 {
        lemma_div_pos_is_pos(a, b);
        lemma_div_nonincreasing(a, b);
    } else if a < 0 && b < 0 {
        let m = a * -1;
        let n = b * -1;
        lemma_div_pos_is_pos(m, n);
        if n == 1 {
            lemma_div_basics(m);
        } else {
            lemma_div_is_ordered_by_denominator(m, 2, n);
            lemma_div_is_ordered(m, 0x8000_0000, 2);
            assert(0x8000_0000int / 2 == 0x4000_0000);
        }
    } else if a < 0 {
        let m = a * -1;
        lemma_div_pos_is_pos(m, b);
        lemma_div_nonincreasing(m, b);
    } else {
        let n = b * -1;
        lemma_div_pos_is_pos(a, n);
        lemma_div_nonincreasing(a, n);
    }
}

/// Division that refuses a zero divisor instead of failing on it.
/// With a nonzero divisor it returns the quotient rounded toward zero.
pub fn safe_div(a: i32, b: i32) -> (r: Option<i32>)
    requires
        !(a == i32::MIN && b == -1),
    ensures
        b == 0 <==> r is None,
        b != 0 ==> (r matches Some(q) && q == div_trunc(a as int, b as int)),
{
    if b == 0 {
        None
    } else {
        proof {
            lemma_div_trunc_in_i32_range(a as int, b as int);
        }
        let q = a.checked_div(b);
        Some(q.unwrap())
    }
}

/// Looks an account name up by its identifier in the fixed directory:
/// 1 is Alice, 5 is Eshmat, and no other identifier is known.
pub fn get_username(id: u32) -> (r: Option<String>)
    ensures
        id == 1 ==> (r matches Some(name) && name@ == "Alice"@),
        id == 5 ==> (r matches Some(name) && name@ == "Eshmat"@),
        id != 1 && id != 5 ==> r is None,
{
    match id {
        1 => Some(String::from_str("Alice")),
        5 => Some(String::from_str("Eshmat")),
        _ => None,
    }
}

/// Reads the element at the given index, or nothing when the index is
/// past the end of the slice.
pub fn get_element(arr: &[i32], index: usize) -> (r: Option<i32>)
    ensures
        index < arr@.len() ==> r == Some(arr@[index as int]),
        index >= arr@.len() ==> r is None,
{
    if index < arr.len() {
        Some(arr[index])
    } else {
        None
    }
}

} // verus!
