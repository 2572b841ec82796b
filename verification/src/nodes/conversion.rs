//! What the verified code takes from the standard library about conversions.
use vstd::prelude::*;

verus! {

/// The conversion of a value into its own type, `impl<T> From<T> for T` of the
/// standard library: it hands its argument back unchanged. This is taken from the
/// documentation of the standard library and is not proved here.
pub assume_specification<Same>[ <Same as std::convert::From<Same>>::from ](given: Same) -> (back: Same)
    ensures
        back == given,
;

} // verus!
