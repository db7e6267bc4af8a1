//! Pattern-matching constructs over tagged values: patterns in parameter
//! position, nested wildcards, guarded arms, and the single-arm conditional
//! binding that abbreviates a full match.

use vstd::prelude::*;

use crate::coins::Coin;
use crate::coins::UsState;

verus! {

/// Destructures a borrowed pair with a single let pattern and uses only
/// the second of the bound fields.
pub fn foo(pair: &(i32, i32)) -> (r: i32)
    ensures
        r == pair.1,
{
    let (_x, y) = *pair;
    y
}

/// Tells whether both values are present, through one arm whose nested
/// wildcards accept any inner values, and a catch-all for the rest.
pub fn both_present(one: Option<i32>, two: Option<i32>) -> (r: bool)
    ensures
        r == (one is Some && two is Some),
{
    match (one, two) {
        (Some(_), Some(_)) => true,
        _ => false,
    }
}

/// What `parity_label` answers for a present value: whether it is even.
pub open spec fn spec_is_even(k: int) -> bool {
    k % 2 == 0
}

/// Labels a present number by its parity. The first arm matches every
/// present value but is guarded, so an odd value is skipped past it and
/// falls to the unguarded arm below; arms are tried top-down and the first
/// that matches wins.
pub fn parity_label(num: Option<i32>) -> (r: Option<&'static str>)
    ensures
        num is None ==> r is None,
        num matches Some(k) && spec_is_even(k as int) ==> (r matches Some(s) && s@ == "even"@),
        num matches Some(k) && !spec_is_even(k as int) ==> (r matches Some(s) && s@ == "odd"@),
{
    match num {
        Some(k) if k % 2 == 0 => Some("even"),
        Some(_k) => Some("odd"),
        None => None,
    }
}

/// What `quarter_region` extracts, stated as the full match: the bound
/// region of a quarter, and nothing for every other variant.
pub open spec fn spec_quarter_region(coin: Coin) -> Option<UsState> {
    match coin {
        Coin::Quarter(state) => Some(state),
        _ => None,
    }
}

/// Extracts a quarter's region through the single-arm conditional binding.
/// Its contract is the full match with a wildcard discard arm, so the
/// shortcut provably returns exactly what that match would.
pub fn quarter_region(coin: Coin) -> (r: Option<UsState>)
    ensures
        r == spec_quarter_region(coin),
{
    if let Coin::Quarter(state) = coin {
        Some(state)
    } else {
        None
    }
}

/// A point in the plane, destructured by the patterns below.
#[derive(Clone, Copy, Debug, PartialEq, Eq, Structural)]
pub struct Point {
    pub x: i32,
    pub y: i32,
}

/// Where a point sits relative to the axes, with the coordinates that the
/// matching arm bound.
#[derive(Clone, Copy, Debug, PartialEq, Eq, Structural)]
pub enum AxisPosition {
    OnXAxis(i32),
    OnYAxis(i32),
    Elsewhere(i32, i32),
}

/// What `locate` answers: the arms overlap at the origin, and the earlier
/// one wins, so the origin counts as lying on the x-axis.
pub open spec fn spec_locate(p: Point) -> AxisPosition {
    if p.y == 0 {
        AxisPosition::OnXAxis(p.x)
    } else if p.x == 0 {
        AxisPosition::OnYAxis(p.y)
    } else {
        AxisPosition::Elsewhere(p.x, p.y)
    }
}

/// Locates a point by matching literal fields inside a struct pattern. The
/// first two arms both match the origin; arms are tried top-down and the
/// first match wins, so the origin is reported on the x-axis.
pub fn locate(p: Point) -> (r: AxisPosition)
    ensures
        r == spec_locate(p),
{
    match p {
        Point { x, y: 0 } => AxisPosition::OnXAxis(x),
        Point { x: 0, y } => AxisPosition::OnYAxis(y),
        Point { x, y } => AxisPosition::Elsewhere(x, y),
    }
}

/// Picks a background color through a mixed chain of conditional bindings
/// and plain conditions, tried top-down: a stated favorite wins outright,
/// then the day, then a successfully parsed age decides between two shades,
/// and a failed parse falls to the last resort.
pub fn background_color<'a>(
    favorite_color: Option<&'a str>,
    is_tuesday: bool,
    age: Result<u8, ()>,
) -> (r: &'a str)
    ensures
        favorite_color matches Some(color) ==> r == color,
        favorite_color is None && is_tuesday ==> r@ == "green"@,
        favorite_color is None && !is_tuesday && (age matches Ok(a) && a > 30) ==> r@
            == "purple"@,
        favorite_color is None && !is_tuesday && (age matches Ok(a) && a <= 30) ==> r@
            == "orange"@,
        favorite_color is None && !is_tuesday && age is Err ==> r@ == "blue"@,
{
    if let Some(color) = favorite_color {
        color
    } else if is_tuesday {
        "green"
    } else if let Ok(age) = age {
        if age > 30 {
            "purple"
        } else {
            "orange"
        }
    } else {
        "blue"
    }
}

/// Steps a tally past a coin, counting it only when it is not a quarter:
/// the conditional binding's alternative branch plays the wildcard arm.
pub fn count_non_quarter(coin: &Coin, count: &mut u64)
    requires
        *old(count) < u64::MAX,
    ensures
        *coin is Quarter ==> *final(count) == *old(count),
        !(*coin is Quarter) ==> *final(count) == *old(count) + 1,
{
    if let Coin::Quarter(_state) = coin {
    } else {
        *count += 1;
    }
}

} // verus!
