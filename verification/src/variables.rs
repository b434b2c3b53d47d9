//! Variables, shadowing, conditionals and loops.

use vstd::prelude::*;

verus! {

/// Seconds in three hours; constants are always immutable and carry a type.
pub const THREE_HOURS_IN_SECONDS: u32 = 60 * 60 * 3;

/// A mutable binding takes each assigned value in turn: the pair holds the
/// value before and the value after the reassignment.
pub fn reassigned_values() -> (r: (i32, i32))
    ensures
        r == (5i32, 6i32),
{
    let mut x: i32 = 5;
    let before: i32 = x;
    x = 6;
    (before, x)
}

/// Shadowing rebinds a name to a transformed value, here `(5 + 1) * 2` inside
/// the inner scope, while the outer binding keeps `5 + 1`: returns
/// `(inner, outer)`.
pub fn shadowed_values() -> (r: (i32, i32))
    ensures
        r == (12i32, 6i32),
{
    let y: i32 = 5;
    let y: i32 = y + 1;
    let inner: i32 = {
        let y: i32 = y * 2;
        y
    };
    (inner, y)
}

/// A function body without a trailing semicolon is an expression: adds one.
pub fn plus_one(x: i32) -> (r: i32)
    requires
        x < i32::MAX,
    ensures
        r == x + 1,
{
    x + 1
}

/// An `if` is an expression: each block evaluates to its last expression.
pub fn select_number(condition: bool) -> (r: i32)
    ensures
        r == (if condition { 5i32 } else { 6i32 }),
{
    if condition {
        5
    } else {
        6
    }
}

/// Counts up to ten and hands back the counter doubled.
pub fn counter_loop() -> (r: i32)
    ensures
        r == 20,
{
    let mut counter: i32 = 0;
    while counter != 10
        invariant
            0 <= counter <= 10,
        decreases 10 - counter,
    {
        counter = counter + 1;
    }
    counter * 2
}

/// The first element of a nonempty sequence of integers.
pub fn first_element(a: &[i32]) -> (r: i32)
    requires
        a@.len() > 0,
    ensures
        r == a@[0],
{
    *vstd::slice::slice_index_get(a, 0)
}

} // verus!
