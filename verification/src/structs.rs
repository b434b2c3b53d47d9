//! Record types with named fields, tuple structs, and methods.

use vstd::prelude::*;

verus! {

/// An account record packaging related values under one name.
pub struct User {
    pub active: bool,
    pub username: String,
    pub email: String,
    pub sign_in_count: u64,
}

/// Builds a `User` from its identifying fields; a fresh user is active with a
/// single recorded sign-in.
pub fn build_user(email: String, username: String) -> (u: User)
    ensures
        u.email == email,
        u.username == username,
        u.active == true,
        u.sign_in_count == 1,
{
    User { email, username, active: true, sign_in_count: 1 }
}

/// A color as three channel values: a tuple struct, indexed by position.
pub struct Color(pub i32, pub i32, pub i32);

/// An axis-aligned rectangle, sized in pixels.
pub struct Rectangle {
    pub width: u32,
    pub height: u32,
}

impl Rectangle {
    /// The rectangle's area: width times height.
    pub fn area(&self) -> (r: u32)
        requires
            self.width * self.height <= u32::MAX,
        ensures
            r == self.width * self.height,
    {
        self.width * self.height
    }

    /// Whether the rectangle has a nonzero width.
    pub fn width(&self) -> (r: bool)
        ensures
            r == (self.width > 0),
    {
        self.width > 0
    }

    /// Whether this rectangle can hold another completely within itself.
    pub fn can_hold(&self, other: &Rectangle) -> (r: bool)
        ensures
            r == (self.width > other.width && self.height > other.height),
    {
        self.width > other.width && self.height > other.height
    }

    /// A square: a rectangle whose width and height both equal `size`.
    pub fn square(size: u32) -> (r: Rectangle)
        ensures
            r.width == size,
            r.height == size,
    {
        Rectangle { width: size, height: size }
    }
}

} // verus!
