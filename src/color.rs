use vstd::prelude::*;

verus! {

/// A colour in fixed-point hundredths per channel. Channels are not clamped:
/// an emission may exceed one.
#[derive(Clone, Copy, Debug, PartialEq, Eq, Structural)]
pub struct Color {
    pub r: i64,
    pub g: i64,
    pub b: i64,
}

impl Color {
    pub fn new(r: i64, g: i64, b: i64) -> (c: Color)
        ensures
            c == (Color { r, g, b }),
    {
        Color { r, g, b }
    }

    pub fn black() -> (c: Color)
        ensures
            c == (Color { r: 0, g: 0, b: 0 }),
    {
        Color { r: 0, g: 0, b: 0 }
    }

    pub open spec fn spec_is_black(&self) -> bool {
        self.r == 0 && self.g == 0 && self.b == 0
    }

    pub fn is_black(&self) -> (r: bool)
        ensures
            r == self.spec_is_black(),
    {
        self.r == 0 && self.g == 0 && self.b == 0
    }
}

impl Default for Color {
    fn default() -> (c: Color)
        ensures
            c.spec_is_black(),
    {
        Color::black()
    }
}

} // verus!
