use guessing_game::basics::area;
use guessing_game::basics::classify_divisibility;
use guessing_game::basics::five;
use guessing_game::basics::plus_one;
use guessing_game::basics::value_in_cents;
use guessing_game::basics::Coin;
use guessing_game::basics::Divisibility;
use guessing_game::basics::Rectangle;
use guessing_game::basics::UsState;

#[test]
fn five_and_plus_one() {
    let x = five();
    let y = plus_one(x);
    assert_eq!(x, 5);
    assert_eq!(y, 6);
}

#[test]
fn rectangle_area() {
    let rect = Rectangle {
        width: 30,
        height: 50,
    };
    assert_eq!(area(&rect), 1500);
}

#[test]
fn divisibility_classes() {
    assert_eq!(classify_divisibility(8), Divisibility::By4);
    assert_eq!(classify_divisibility(12), Divisibility::By4);
    assert_eq!(classify_divisibility(6), Divisibility::By3);
    assert_eq!(classify_divisibility(9), Divisibility::By3);
    assert_eq!(classify_divisibility(2), Divisibility::By2);
    assert_eq!(classify_divisibility(10), Divisibility::By2);
    assert_eq!(classify_divisibility(7), Divisibility::ByNone);
    assert_eq!(classify_divisibility(1), Divisibility::ByNone);
    assert_eq!(classify_divisibility(0), Divisibility::By4);
}

#[test]
fn coin_values() {
    assert_eq!(value_in_cents(Coin::Penny), 1);
    assert_eq!(value_in_cents(Coin::Nickel), 5);
    assert_eq!(value_in_cents(Coin::Dime), 10);
    assert_eq!(value_in_cents(Coin::Quarter(UsState::Alabama)), 25);
    assert_eq!(value_in_cents(Coin::Quarter(UsState::Alaska)), 25);
}
