use vstd::prelude::*;

verus! {

/// The value reported for a missing field.
pub const MISSING_FIELD: i32 = -1;

/// The integer value of a field lookup: the value read when the field was found, else
/// `MISSING_FIELD`.
pub fn int_field_or_missing(found: Option<i32>) -> (v: i32)
    ensures
        v == match found {
            Some(x) => x,
            None => MISSING_FIELD,
        },
{
    match found {
        Some(x) => x,
        None => MISSING_FIELD,
    }
}

} // verus!
