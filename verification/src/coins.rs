//! Coins as a closed set of variants, one of which carries a region tag,
//! and a total derivation from coin to its value in cents.

use vstd::prelude::*;

verus! {

/// The region stamped on a quarter. A closed set: no instance is ever
/// outside these alternatives.
#[derive(Clone, Copy, Debug, PartialEq, Eq, Structural)]
pub enum UsState {
    Alabama,
    Alaska,
}

/// A coin. `Quarter` carries the region it was minted for; the other
/// variants carry nothing.
#[derive(Clone, Copy, Debug, PartialEq, Eq, Structural)]
pub enum Coin {
    Penny,
    Nickel,
    Dime,
    Quarter(UsState),
}

/// The fixed, total mapping from coin variant to its value in cents.
pub open spec fn spec_coin_value(coin: Coin) -> u8 {
    match coin {
        Coin::Penny => 1,
        Coin::Nickel => 5,
        Coin::Dime => 10,
        Coin::Quarter(_) => 25,
    }
}

/// Derives the value of a coin in cents. The match is exhaustive over the
/// four variants; a quarter is worth 25 whatever region it carries.
pub fn value_in_cents(coin: Coin) -> (cents: u8)
    ensures
        cents == spec_coin_value(coin),
{
    match coin {
        Coin::Penny => 1,
        Coin::Nickel => 5,
        Coin::Dime => 10,
        Coin::Quarter(_state) => 25,
    }
}

/// The value of a quarter does not depend on the region it carries.
pub proof fn lemma_quarter_value_region_independent(r1: UsState, r2: UsState)
    ensures
        spec_coin_value(Coin::Quarter(r1)) == spec_coin_value(Coin::Quarter(r2)),
        spec_coin_value(Coin::Quarter(r1)) == 25,
{
}

} // verus!
