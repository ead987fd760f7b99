//! The backdrop of a tile.

use vstd::prelude::*;

verus! {

/// Number of backdrop images.
pub const BACKGROUNDS: u32 = 3;

/// The backdrop of one tile: where it lies and which image it shows.
#[derive(Clone, Copy, Debug, PartialEq, Eq, Structural)]
pub struct Background {
    pub x: i64,
    pub y: i64,
    pub h: i64,
    pub w: i64,
    /// The image, `1..=BACKGROUNDS`.
    pub which_bg: u32,
}

impl Background {
    /// The image that stands for `which_bg`: the first and the second for
    /// `1` and `2`, the third for everything else.
    pub open spec fn image_of(which_bg: u32) -> u32 {
        if which_bg == 1 || which_bg == 2 {
            which_bg
        } else {
            BACKGROUNDS
        }
    }

    /// A backdrop at `(x, y)` with half-extents `h` and `w`.
    pub fn init(x: i64, y: i64, h: i64, w: i64, which_bg: u32) -> (b: Background)
        ensures
            b == (Background { x, y, h, w, which_bg: Background::image_of(which_bg) }),
            1 <= b.which_bg <= BACKGROUNDS,
    {
        let which_bg = if which_bg == 1 {
            1
        } else if which_bg == 2 {
            2
        } else {
            BACKGROUNDS
        };
        Background { x, y, h, w, which_bg }
    }
}

} // verus!
