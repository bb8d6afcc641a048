#![allow(nonstandard_style)]

pub mod aging;
pub mod byte;
pub mod platypus;
pub mod program;

pub use byte::uint8;
pub use platypus::{Animal, EggLayer, Mammal, NorthernPlatypus, Platypus, Teller};
pub use program::_default;
