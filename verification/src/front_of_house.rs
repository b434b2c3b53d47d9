//! The dining room: what guests see first.

pub mod hosting;
