use vstd::prelude::*;

verus! {

/// The exponents of the power-of-ten decade that encloses a positive value
/// whose base-ten logarithm has the given floor and ceiling.
pub open spec fn decade_spec(floor_exp: int, ceil_exp: int) -> (int, int) {
    if ceil_exp != floor_exp {
        (floor_exp, ceil_exp)
    } else {
        (floor_exp, ceil_exp + 1)
    }
}

/// Exponents `(lo, hi)` of the decade `[10^lo, 10^hi]` used for a log scale
/// whose source range has collapsed to one positive value. When that value is
/// an exact power of ten, the decade above it is taken so that the interval is
/// never empty.
pub fn decade_bounds(floor_exp: i32, ceil_exp: i32) -> (r: (i32, i32))
    requires
        ceil_exp < i32::MAX,
    ensures
        (r.0 as int, r.1 as int) == decade_spec(floor_exp as int, ceil_exp as int),
        floor_exp <= ceil_exp ==> r.0 < r.1,
{
    if ceil_exp != floor_exp {
        (floor_exp, ceil_exp)
    } else {
        (floor_exp, ceil_exp + 1)
    }
}

} // verus!
