use vstd::prelude::*;
use vstd::std_specs::cmp::{PartialOrdIs, PartialOrdSpec};

verus! {

/// Holds `input` to the closed range from `min` to `max`: a value below `min`
/// gives `min`, one above `max` gives `max`, and any other value comes back
/// unchanged. For a type whose order is not total (a NaN float) a value that
/// compares neither below nor above is returned as it is.
pub fn clamp<T: PartialOrd>(input: T, min: T, max: T) -> (r: T)
    ensures
        T::obeys_partial_cmp_spec() ==> r == (if input.is_lt(&min) {
            min
        } else if input.is_gt(&max) {
            max
        } else {
            input
        }),
{
    if input < min {
        return min;
    }
    if input > max {
        return max;
    }
    input
}

} // verus!
