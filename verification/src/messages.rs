//! Tagged unions with per-variant payloads, and exhaustive matching.

use vstd::prelude::*;

verus! {

/// An IP address is either a version-four or a version-six address, but not
/// both at once; each variant carries the address in its text form.
pub enum IpAddrKind {
    V4(String),
    V6(String),
}

/// An IP address whose version-four variant carries its four octets directly:
/// variants may hold different types and amounts of data.
pub enum IpAddrKind2 {
    V4(u8, u8, u8, u8),
    V6(String),
}

/// Accepts an address of either version; the examples attach no routing rule.
pub fn route(_ip_kind: IpAddrKind) {
}

/// A message: quit, a move to coordinates, a text payload, or a color change.
pub enum Message {
    Quit,
    Move { x: i32, y: i32 },
    Write(String),
    ChangeColor(i32, i32, i32),
}

impl Message {
    /// Receives the message; the examples attach no behaviour to it.
    pub fn call(&self) {
    }
}

/// The quit message as a type of its own: a unit struct.
pub struct QuitMessage;

/// The move message as a type of its own: a struct with named fields.
pub struct MoveMessage {
    pub x: i32,
    pub y: i32,
}

/// The text message as a type of its own: a tuple struct.
pub struct WriteMessage(pub String);

/// The color-change message as a type of its own: a tuple struct.
pub struct ChangeColorMessage(pub i32, pub i32, pub i32);

/// The states that mint quarters in these examples.
#[derive(Debug)]
pub enum UsState {
    Alabama,
    Alaska,
}

/// A United States coin; the quarter carries the state that minted it.
pub enum Coin {
    Penny,
    Nickel,
    Dime,
    Quarter(UsState),
}

/// The face value of a coin in cents: one, five, ten or twenty-five for the
/// four variants respectively.
pub fn value_in_cents(coin: Coin) -> (r: u8)
    ensures
        r == (match coin {
            Coin::Penny => 1u8,
            Coin::Nickel => 5u8,
            Coin::Dime => 10u8,
            Coin::Quarter(_) => 25u8,
        }),
{
    match coin {
        Coin::Penny => 1,
        Coin::Nickel => 5,
        Coin::Dime => 10,
        Coin::Quarter(_state) => 25,
    }
}

/// Adds one to the payload of an optional value; an absent value stays
/// absent.
pub fn plus_one(x: Option<i32>) -> (r: Option<i32>)
    requires
        x matches Some(i) ==> i < i32::MAX,
    ensures
        r == (match x {
            None => None::<i32>,
            Some(i) => Some((i + 1) as i32),
        }),
{
    match x {
        None => None,
        Some(i) => Some(i + 1),
    }
}

} // verus!
