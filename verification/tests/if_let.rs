use tagged_union::if_let::{a, b, c, d, Coin, UsState};
use tagged_union::optional::Optional;

#[test]
fn a_prints_nothing_for_zero() {
    assert_eq!(a(), Optional::Absent);
}

#[test]
fn b_prints_three_for_three() {
    assert_eq!(b(Optional::Present(3)), Optional::Present("three"));
}

#[test]
fn b_prints_nothing_for_any_other_value() {
    for value in 0..=255u8 {
        if value != 3 {
            assert_eq!(b(Optional::Present(value)), Optional::Absent);
        }
    }
}

#[test]
fn b_prints_nothing_for_no_value() {
    assert_eq!(b(Optional::Absent), Optional::Absent);
}

#[test]
fn c_announces_the_state_of_a_quarter() {
    assert_eq!(c(Coin::Quarter(UsState::Alaska)), (Optional::Present(UsState::Alaska), 0));
    assert_eq!(c(Coin::Quarter(UsState::Alabama)), (Optional::Present(UsState::Alabama), 0));
}

#[test]
fn c_counts_any_other_coin() {
    for coin in [Coin::Penny, Coin::Nickel, Coin::Dime] {
        assert_eq!(c(coin), (Optional::Absent, 1));
    }
}

#[test]
fn d_announces_the_state_of_a_quarter() {
    assert_eq!(d(Coin::Quarter(UsState::Alaska)), (Optional::Present(UsState::Alaska), 0));
}

#[test]
fn d_counts_any_other_coin() {
    for coin in [Coin::Penny, Coin::Nickel, Coin::Dime] {
        assert_eq!(d(coin), (Optional::Absent, 1));
    }
}

#[test]
fn c_and_d_agree_on_every_coin() {
    let coins = [
        Coin::Penny,
        Coin::Nickel,
        Coin::Dime,
        Coin::Quarter(UsState::Alabama),
        Coin::Quarter(UsState::Alaska),
    ];
    for coin in coins {
        assert_eq!(c(coin), d(coin));
    }
}
