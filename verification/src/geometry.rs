//! Frame geometry read by the track rules: coded frame size and the
//! clean-aperture crop rectangle, both in pixels.
use vstd::prelude::*;

verus! {

/// Coded width × height in pixels; `0x0` means unknown.
#[derive(Debug, Clone, Copy, PartialEq, Eq, Hash, Structural)]
pub struct Dimensions {
    width: u32,
    height: u32,
}

impl Dimensions {
    /// Width in pixels.
    pub closed spec fn spec_width(self) -> u32 {
        self.width
    }

    /// Height in pixels.
    pub closed spec fn spec_height(self) -> u32 {
        self.height
    }

    /// `width × height`.
    pub fn new(width: u32, height: u32) -> (r: Self)
        ensures
            r.spec_width() == width,
            r.spec_height() == height,
    {
        Dimensions { width, height }
    }

    /// Width in pixels.
    pub fn width(&self) -> (r: u32)
        ensures
            r == self.spec_width(),
    {
        self.width
    }

    /// Height in pixels.
    pub fn height(&self) -> (r: u32)
        ensures
            r == self.spec_height(),
    {
        self.height
    }
}

impl Default for Dimensions {
    /// The `0x0` unknown size.
    fn default() -> (r: Self)
        ensures
            r.spec_width() == 0,
            r.spec_height() == 0,
    {
        Dimensions { width: 0, height: 0 }
    }
}

/// A rectangle at `(x, y)` of `width × height` pixels.
#[derive(Debug, Clone, Copy, PartialEq, Eq, Hash, Structural)]
pub struct Rect {
    x: u32,
    y: u32,
    width: u32,
    height: u32,
}

impl Rect {
    /// Left edge.
    pub closed spec fn spec_x(self) -> u32 {
        self.x
    }

    /// Top edge.
    pub closed spec fn spec_y(self) -> u32 {
        self.y
    }

    /// Width in pixels.
    pub closed spec fn spec_width(self) -> u32 {
        self.width
    }

    /// Height in pixels.
    pub closed spec fn spec_height(self) -> u32 {
        self.height
    }

    /// The rectangle at `(x, y)` of `width × height`.
    pub fn new(x: u32, y: u32, width: u32, height: u32) -> (r: Self)
        ensures
            r.spec_x() == x,
            r.spec_y() == y,
            r.spec_width() == width,
            r.spec_height() == height,
    {
        Rect { x, y, width, height }
    }

    /// Left edge.
    pub fn x(&self) -> (r: u32)
        ensures
            r == self.spec_x(),
    {
        self.x
    }

    /// Top edge.
    pub fn y(&self) -> (r: u32)
        ensures
            r == self.spec_y(),
    {
        self.y
    }

    /// Width in pixels.
    pub fn width(&self) -> (r: u32)
        ensures
            r == self.spec_width(),
    {
        self.width
    }

    /// Height in pixels.
    pub fn height(&self) -> (r: u32)
        ensures
            r == self.spec_height(),
    {
        self.height
    }
}

/// A coded size is valid when it is the `0x0` unknown sentinel or has both
/// axes non-zero.
pub open spec fn valid_dimensions(d: Dimensions) -> bool {
    (d.spec_width() == 0 && d.spec_height() == 0) || (d.spec_width() != 0 && d.spec_height() != 0)
}

/// A coded size is known when both axes are non-zero.
pub open spec fn known_dimensions(d: Dimensions) -> bool {
    d.spec_width() != 0 && d.spec_height() != 0
}

/// The rectangle lies inside the frame: `x + width <= frame width` and
/// `y + height <= frame height`, in exact arithmetic.
pub open spec fn rect_within(r: Rect, d: Dimensions) -> bool {
    r.spec_x() + r.spec_width() <= d.spec_width() && r.spec_y() + r.spec_height() <= d.spec_height()
}

} // verus!
