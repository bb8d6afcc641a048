use vstd::prelude::*;

verus! {

/// An 8-bit unsigned number, as a type of its own.
#[derive(Clone, Copy, Debug, PartialEq, Eq, Structural)]
pub struct uint8(pub u8);

impl uint8 {
    /// Whether a `u8` is a value of this type: every one is.
    pub fn is(_source: u8) -> (r: bool)
        ensures
            r,
    {
        true
    }
}

impl Default for uint8 {
    /// The default value is zero.
    fn default() -> (d: Self)
        ensures
            d.0 == 0,
    {
        uint8(0)
    }
}

} // verus!
