use vstd::prelude::*;

use crate::geometry::{Point, Size};

verus! {

/// Where a popup is put on the screen when it opens.
#[derive(Clone, Copy, Debug, PartialEq, Eq, Structural)]
pub enum Placement {
    LeftTop,
    RightTop,
    Center,
    LeftBottom,
    RightBottom,
    Cursor,
    Position(Point),
}

/// The local position that `placement` gives to a widget of size `size` on a
/// screen of size `screen`, with the pointer at `cursor`.
pub open spec fn placement_position(placement: Placement, size: Size, screen: Size, cursor: Point) -> (int, int) {
    let free_x = screen.width - size.width;
    let free_y = screen.height - size.height;
    match placement {
        Placement::LeftTop => (0, 0),
        Placement::RightTop => (free_x, 0),
        Placement::Center => (free_x / 2, free_y / 2),
        Placement::LeftBottom => (0, free_y),
        Placement::RightBottom => (free_x, free_y),
        Placement::Cursor => (cursor.x as int, cursor.y as int),
        Placement::Position(p) => (p.x as int, p.y as int),
    }
}

/// Half of `v`, rounded down.
fn half_floor(v: i64) -> (r: i64)
    ensures
        r == v / 2,
{
    if v >= 0 {
        v / 2
    } else {
        let r = -((-(v + 1)) / 2) - 1;
        assert(r == v / 2) by (nonlinear_arith)
            requires
                v < 0,
                -(v + 1) >= 0,
                r == -((-(v + 1)) / 2) - 1,
        ;
        r
    }
}

/// Resolves `placement` for a widget of size `size` on a screen of size
/// `screen`, with the pointer at `cursor`.
pub fn resolve_placement(placement: Placement, size: Size, screen: Size, cursor: Point) -> (r: Point)
    ensures
        (r.x as int, r.y as int) == placement_position(placement, size, screen, cursor),
{
    let free_x: i64 = screen.width as i64 - size.width as i64;
    let free_y: i64 = screen.height as i64 - size.height as i64;
    match placement {
        Placement::LeftTop => Point::zero(),
        Placement::RightTop => Point::new(free_x, 0),
        Placement::Center => Point::new(half_floor(free_x), half_floor(free_y)),
        Placement::LeftBottom => Point::new(0, free_y),
        Placement::RightBottom => Point::new(free_x, free_y),
        Placement::Cursor => cursor,
        Placement::Position(p) => p,
    }
}

} // verus!
