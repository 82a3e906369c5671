//! Handling one pattern and passing over the rest: what a full match with
//! a catch-all arm decides, and what the shorter single-pattern form
//! decides. The caller prints; these functions say what.

use vstd::prelude::*;
use crate::optional::Optional;

verus! {

/// A state of the union, as a quarter shows it.
#[derive(Clone, Copy, Debug, PartialEq, Eq, Structural)]
pub enum UsState {
    Alabama,
    Alaska,
}

/// A coin. Only a quarter carries data: the state it was minted for.
#[derive(Clone, Copy, Debug, PartialEq, Eq, Structural)]
pub enum Coin {
    Penny,
    Nickel,
    Dime,
    Quarter(UsState),
}

/// What is done with a coin: the state to announce, for a quarter, and the
/// count of the other coins, which goes from zero to one for any other coin.
pub open spec fn tally(coin: Coin) -> (Optional<UsState>, u32) {
    match coin {
        Coin::Quarter(state) => (Optional::Present(state), 0u32),
        _ => (Optional::Absent, 1u32),
    }
}

/// The line to print for the value zero: a full match with an arm for
/// three and a catch-all arm. Zero is not three, so there is none.
pub fn a() -> (line: Optional<&'static str>)
    ensures
        line is Absent,
{
    let some_u8_value = Optional::Present(0u8);
    match some_u8_value {
        Optional::Present(3) => Optional::Present("three"),
        _ => Optional::Absent,
    }
}

/// The line to print for a value: "three" for three, none for any other
/// value and for none. This is the single-pattern form.
pub fn b(some_u8_value: Optional<u8>) -> (line: Optional<&'static str>)
    ensures
        some_u8_value == Optional::Present(3u8) ==> (line matches Optional::Present(text) && text@ == "three"@),
        some_u8_value != Optional::Present(3u8) ==> line is Absent,
{
    if let Optional::Present(3) = some_u8_value {
        Optional::Present("three")
    } else {
        Optional::Absent
    }
}

/// The state to announce and the count of other coins, by a full match
/// with a catch-all arm.
pub fn c(coin: Coin) -> (outcome: (Optional<UsState>, u32))
    ensures
        outcome == tally(coin),
{
    let mut count: u32 = 0;
    let announced = match coin {
        Coin::Quarter(state) => Optional::Present(state),
        _ => {
            count += 1;
            Optional::Absent
        },
    };
    (announced, count)
}

/// The same as `c`, by the single-pattern form with an `else`.
pub fn d(coin: Coin) -> (outcome: (Optional<UsState>, u32))
    ensures
        outcome == tally(coin),
{
    let mut count: u32 = 0;
    let announced = if let Coin::Quarter(state) = coin {
        Optional::Present(state)
    } else {
        count += 1;
        Optional::Absent
    };
    (announced, count)
}

} // verus!
