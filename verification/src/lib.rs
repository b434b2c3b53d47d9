//! A small verified library of introductory language examples: variables,
//! shadowing and loops; ownership and borrowing helpers over heap-backed
//! text values; slices and a first-token scanner; record types with methods;
//! tagged unions with exhaustive matching; and a restaurant module that
//! demonstrates visibility rules.

pub mod back_of_house;
pub mod front_of_house;
pub mod messages;
pub mod ownership;
pub mod structs;
pub mod variables;
