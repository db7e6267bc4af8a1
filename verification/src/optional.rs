//! Presence or absence of a value as a first-class, two-variant sum:
//! no null state exists, and every consumer must handle both variants.

use vstd::prelude::*;

verus! {

/// Either a value is present or it is absent; there is no third state, and
/// absence never overlaps with any valid carried value.
#[derive(Clone, Copy, Debug, PartialEq, Eq, Structural)]
pub enum OptionalValue<T> {
    Absent,
    Present(T),
}

/// What `plus_one` returns: absence is passed through unchanged, and a
/// present value is incremented by one.
pub open spec fn spec_plus_one(x: OptionalValue<i32>) -> OptionalValue<i32>
    recommends
        x matches OptionalValue::Present(v) ==> v < i32::MAX,
{
    match x {
        OptionalValue::Absent => OptionalValue::Absent,
        OptionalValue::Present(v) => OptionalValue::Present((v + 1) as i32),
    }
}

/// Adds one to a present value and leaves absence untouched. The increment
/// must not overflow, so a present value has to sit below the largest `i32`.
pub fn plus_one(x: OptionalValue<i32>) -> (r: OptionalValue<i32>)
    requires
        x matches OptionalValue::Present(v) ==> v < i32::MAX,
    ensures
        r == spec_plus_one(x),
        x is Absent ==> r is Absent,
        x matches OptionalValue::Present(v) ==> r == OptionalValue::Present((v + 1) as i32),
{
    match x {
        OptionalValue::Absent => OptionalValue::Absent,
        OptionalValue::Present(v) => OptionalValue::Present(v + 1),
    }
}

} // verus!
