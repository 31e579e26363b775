//! Standard conversions that the builders accept.

use vstd::prelude::*;

verus! {

/// `String::from(&str)` of `std`: the string holds the characters of the slice.
pub assume_specification<'a>[ <String as From<&'a str>>::from ](text: &str) -> (owned: String)
    ensures
        owned@ == text@,
;

/// The reflexive `From` of `std`: a value converts into itself.
pub assume_specification<Reflexive>[ <Reflexive as From<Reflexive>>::from ](
    value: Reflexive,
) -> (same: Reflexive)
    ensures
        same == value,
;

/// `Option::from` of `std`: a value converts into `Some` of itself.
pub assume_specification<Present>[ <Option<Present> as From<Present>>::from ](
    value: Present,
) -> (wrapped: Option<Present>)
    ensures
        wrapped == Some(value),
;

} // verus!
