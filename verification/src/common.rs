use vstd::prelude::*;

verus! {

/// Builds the three-by-three matrix of zeroes that the matrix exercise
/// displays.
pub fn ex9_matrix() -> (m: [[i32; 3]; 3])
    ensures
        forall|i: int, j: int| 0 <= i < 3 && 0 <= j < 3 ==> m@[i]@[j] == 0,
{
    [[0; 3]; 3]
}

/// Entry point of the common exercise set: computes the matrix exercise's
/// result and hands it to the caller for display.
pub fn common_main() -> (m: [[i32; 3]; 3])
    ensures
        forall|i: int, j: int| 0 <= i < 3 && 0 <= j < 3 ==> m@[i]@[j] == 0,
{
    ex9_matrix()
}

} // verus!
