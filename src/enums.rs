use vstd::prelude::*;

use crate::error::Error;

verus! {

/// Maps a decoded enumeration value to the index of the first variant whose discriminant it
/// is; a value that is no discriminant is out of range.
pub fn variant_index(value: i128, discriminants: &Vec<i128>) -> (r: Result<usize, Error>)
    ensures
        match r {
            Ok(k) => k < discriminants@.len() && discriminants@[k as int] == value && forall|j: int|
                0 <= j < k ==> discriminants@[j] != value,
            Err(e) => e == Error::EnumVariantOutOfRange(value as usize) && forall|j: int|
                0 <= j < discriminants@.len() ==> discriminants@[j] != value,
        },
{
    let mut i: usize = 0;
    while i < discriminants.len()
        invariant
            i <= discriminants@.len(),
            forall|j: int| 0 <= j < i ==> discriminants@[j] != value,
        decreases discriminants@.len() - i,
    {
        if discriminants[i] == value {
            return Ok(i);
        }
        i = i + 1;
    }
    Err(Error::EnumVariantOutOfRange(value as usize))
}

} // verus!
