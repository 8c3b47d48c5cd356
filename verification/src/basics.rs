//! Small arithmetic and classification helpers: constant producers, a
//! rectangle area, divisibility classification and coin values.

use vstd::prelude::*;

verus! {

/// Returns the constant five.
pub fn five() -> (r: i32)
    ensures
        r == 5,
{
    5
}

/// Returns the successor of `x`.
pub fn plus_one(x: i32) -> (r: i32)
    requires
        x < i32::MAX,
    ensures
        r == x + 1,
{
    x + 1
}

/// An axis-aligned rectangle given by its side lengths.
#[derive(Debug, Clone, Copy, PartialEq, Eq, Structural)]
pub struct Rectangle {
    pub width: u32,
    pub height: u32,
}

/// Area of a rectangle, the product of its side lengths.
pub fn area(rectangle: &Rectangle) -> (r: u32)
    requires
        rectangle.width * rectangle.height <= u32::MAX,
    ensures
        r == rectangle.width * rectangle.height,
{
    rectangle.width * rectangle.height
}

/// Which of the divisors 4, 3, 2 an integer is divisible by, checked in
/// that order; `ByNone` when none divides it.
#[derive(Debug, Clone, Copy, PartialEq, Eq, Structural)]
pub enum Divisibility {
    By4,
    By3,
    By2,
    ByNone,
}

/// Classifies `n` by the first of 4, 3, 2 that divides it.
pub fn classify_divisibility(n: u32) -> (d: Divisibility)
    ensures
        d == Divisibility::By4 <==> n % 4 == 0,
        d == Divisibility::By3 <==> (n % 4 != 0 && n % 3 == 0),
        d == Divisibility::By2 <==> (n % 4 != 0 && n % 3 != 0 && n % 2 == 0),
        d == Divisibility::ByNone <==> (n % 4 != 0 && n % 3 != 0 && n % 2 != 0),
{
    if n % 4 == 0 {
        Divisibility::By4
    } else if n % 3 == 0 {
        Divisibility::By3
    } else if n % 2 == 0 {
        Divisibility::By2
    } else {
        Divisibility::ByNone
    }
}

/// A United States state that can appear on a quarter.
#[derive(Debug, Clone, Copy, PartialEq, Eq, Structural)]
pub enum UsState {
    Alabama,
    Alaska,
}

/// A coin denomination.
#[derive(Debug, Clone, Copy, PartialEq, Eq, Structural)]
pub enum Coin {
    Penny,
    Nickel,
    Dime,
    Quarter(UsState),
}

/// The value of a coin in cents.
pub fn value_in_cents(coin: Coin) -> (v: u32)
    ensures
        coin == Coin::Penny ==> v == 1,
        coin == Coin::Nickel ==> v == 5,
        coin == Coin::Dime ==> v == 10,
        (coin matches Coin::Quarter(_)) ==> v == 25,
{
    match coin {
        Coin::Penny => 1,
        Coin::Nickel => 5,
        Coin::Dime => 10,
        Coin::Quarter(_) => 25,
    }
}

} // verus!
