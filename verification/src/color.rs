//! Colours in the panel's native 16-bit format.

use vstd::prelude::*;

verus! {

/// A colour with five bits of red, six bits of green and five bits of blue.
#[derive(Clone, Copy, Debug, PartialEq, Eq, Structural)]
pub struct Rgb565 {
    pub red: u8,
    pub green: u8,
    pub blue: u8,
}

/// Largest value of the red and of the blue channel.
pub const MAX_RED_BLUE: u8 = 31;

/// Largest value of the green channel.
pub const MAX_GREEN: u8 = 63;

impl Rgb565 {
    /// Every channel fits in the bits the format gives it.
    pub open spec fn is_valid(self) -> bool {
        &&& self.red <= MAX_RED_BLUE
        &&& self.green <= MAX_GREEN
        &&& self.blue <= MAX_RED_BLUE
    }

    /// All channels off.
    pub open spec fn spec_black() -> Rgb565 {
        Rgb565 { red: 0, green: 0, blue: 0 }
    }

    /// All channels at their maximum.
    pub open spec fn spec_white() -> Rgb565 {
        Rgb565 { red: 31, green: 63, blue: 31 }
    }

    /// Red at its maximum, the others off.
    pub open spec fn spec_red() -> Rgb565 {
        Rgb565 { red: 31, green: 0, blue: 0 }
    }

    /// Blue at its maximum, the others off.
    pub open spec fn spec_blue() -> Rgb565 {
        Rgb565 { red: 0, green: 0, blue: 31 }
    }

    #[verifier::when_used_as_spec(spec_black)]
    pub fn black() -> (c: Rgb565)
        ensures
            c == Rgb565::spec_black(),
            c.is_valid(),
    {
        Rgb565 { red: 0, green: 0, blue: 0 }
    }

    #[verifier::when_used_as_spec(spec_white)]
    pub fn white() -> (c: Rgb565)
        ensures
            c == Rgb565::spec_white(),
            c.is_valid(),
    {
        Rgb565 { red: MAX_RED_BLUE, green: MAX_GREEN, blue: MAX_RED_BLUE }
    }

    #[verifier::when_used_as_spec(spec_red)]
    pub fn red() -> (c: Rgb565)
        ensures
            c == Rgb565::spec_red(),
            c.is_valid(),
    {
        Rgb565 { red: MAX_RED_BLUE, green: 0, blue: 0 }
    }

    #[verifier::when_used_as_spec(spec_blue)]
    pub fn blue() -> (c: Rgb565)
        ensures
            c == Rgb565::spec_blue(),
            c.is_valid(),
    {
        Rgb565 { red: 0, green: 0, blue: MAX_RED_BLUE }
    }
}

} // verus!
