use vstd::prelude::*;

verus! {

/// Dimensions of a terminal, in character cells and in pixels.
#[derive(Clone, Copy, Debug, PartialEq, Eq, Structural)]
pub struct Winsize {
    pub rows: u16,
    pub columns: u16,
    pub pixel_width: u16,
    pub pixel_height: u16,
}

impl Winsize {
    /// Builds a size from its four dimensions.
    pub fn new(rows: u16, columns: u16, pixel_width: u16, pixel_height: u16) -> (r: Winsize)
        ensures
            r.rows == rows,
            r.columns == columns,
            r.pixel_width == pixel_width,
            r.pixel_height == pixel_height,
    {
        Winsize { rows, columns, pixel_width, pixel_height }
    }
}

} // verus!
