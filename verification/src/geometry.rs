//! Rectangles on the pixel grid, clipped and walked with `embedded_graphics`.

use embedded_graphics::geometry::{Point, Size};
use embedded_graphics::primitives::rectangle::Points;
use embedded_graphics::primitives::{PointsIter, Rectangle};
use vstd::prelude::*;

verus! {

/// A rectangle by its top left corner and its size.
#[derive(Clone, Copy, Debug, PartialEq, Eq, Structural)]
pub struct Rect {
    pub x: i32,
    pub y: i32,
    pub width: u32,
    pub height: u32,
}

impl Rect {
    /// The rectangle at the origin with no size.
    pub open spec fn zero() -> Rect {
        Rect { x: 0, y: 0, width: 0, height: 0 }
    }

    /// A rectangle without any point: its width or its height is zero.
    pub open spec fn is_empty(self) -> bool {
        self.width == 0 || self.height == 0
    }

    /// The column of the rightmost points.
    pub open spec fn right(self) -> int {
        self.x + self.width - 1
    }

    /// The row of the lowest points.
    pub open spec fn bottom(self) -> int {
        self.y + self.height - 1
    }

    /// The corners of a rectangle with points fit `i32` arithmetic: the size
    /// and the sum of corner and size do not exceed `i32::MAX`.
    pub open spec fn representable(self) -> bool {
        !self.is_empty() ==> {
            &&& self.width <= i32::MAX
            &&& self.height <= i32::MAX
            &&& self.x + self.width <= i32::MAX
            &&& self.y + self.height <= i32::MAX
        }
    }

    /// Whether the point `(x, y)` lies in the rectangle.
    pub open spec fn has(self, x: int, y: int) -> bool {
        &&& !self.is_empty()
        &&& self.x <= x <= self.right()
        &&& self.y <= y <= self.bottom()
    }

    /// The common part of two rectangles. Two rectangles with points share
    /// the points from the larger of the left and top edges to the smaller of
    /// the right and bottom edges, if there are any. A rectangle without
    /// points whose corner lies in the other one is its own intersection with
    /// it. In every other case the result is the zero rectangle.
    pub open spec fn intersect(self, other: Rect) -> Rect {
        if !self.is_empty() && !other.is_empty() {
            let left = if self.x >= other.x { self.x as int } else { other.x as int };
            let top = if self.y >= other.y { self.y as int } else { other.y as int };
            let right = if self.right() <= other.right() { self.right() } else { other.right() };
            let bottom = if self.bottom() <= other.bottom() {
                self.bottom()
            } else {
                other.bottom()
            };
            if left <= right && top <= bottom {
                Rect {
                    x: left as i32,
                    y: top as i32,
                    width: (right - left + 1) as u32,
                    height: (bottom - top + 1) as u32,
                }
            } else {
                Rect::zero()
            }
        } else if self.is_empty() && !other.is_empty() {
            if other.has(self.x as int, self.y as int) {
                self
            } else {
                Rect::zero()
            }
        } else if !self.is_empty() && other.is_empty() {
            if self.has(other.x as int, other.y as int) {
                other
            } else {
                Rect::zero()
            }
        } else {
            Rect::zero()
        }
    }

    /// The points of the rectangle, row by row from the top, each row from the
    /// left.
    pub open spec fn points(self) -> Seq<(int, int)> {
        if self.is_empty() {
            Seq::empty()
        } else {
            Seq::new(
                (self.width * self.height) as nat,
                |k: int| (self.x + k % (self.width as int), self.y + k / (self.width as int)),
            )
        }
    }
}

#[verifier::external_type_specification]
#[verifier::external_body]
pub struct ExPoints(Points);

/// The points that a `Points` iterator has yet to yield, in order.
pub uninterp spec fn points_left(points: Points) -> Seq<(int, int)>;

/// Clips with `Rectangle::intersection` of `embedded_graphics`. Trusted: for
/// two rectangles with points it returns the rectangle spanned by the
/// componentwise maximum of the top left corners and the componentwise minimum
/// of the bottom right corners if the column ranges and the row ranges both
/// overlap; for one without points whose corner the other contains, that one
/// unchanged; else `Rectangle::zero()`. The corner arithmetic is in `i32`,
/// which `representable` keeps from overflowing.
#[verifier::external_body]
pub(crate) fn rect_intersection(a: &Rect, b: &Rect) -> (common: Rect)
    requires
        a.representable(),
        b.representable(),
    ensures
        common == a.intersect(*b),
{
    let first = Rectangle::new(Point::new(a.x, a.y), Size::new(a.width, a.height));
    let second = Rectangle::new(Point::new(b.x, b.y), Size::new(b.width, b.height));
    let common = first.intersection(&second);
    Rect {
        x: common.top_left.x,
        y: common.top_left.y,
        width: common.size.width,
        height: common.size.height,
    }
}

/// Tests a point with `Rectangle::contains` of `embedded_graphics`. Trusted:
/// it returns whether the point is at or beyond the top left corner and at or
/// before the bottom right corner, and `false` for a rectangle without points.
#[verifier::external_body]
pub(crate) fn rect_contains(rect: &Rect, x: i32, y: i32) -> (inside: bool)
    requires
        rect.representable(),
    ensures
        inside == rect.has(x as int, y as int),
{
    Rectangle::new(Point::new(rect.x, rect.y), Size::new(rect.width, rect.height)).contains(
        Point::new(x, y),
    )
}

/// Starts a walk over a rectangle with `PointsIter::points` of
/// `embedded_graphics`. Trusted: the iterator yields no point for a rectangle
/// without points, and else every point row by row, each row from the left.
#[verifier::external_body]
pub(crate) fn rect_points(rect: &Rect) -> (points: Points)
    requires
        rect.representable(),
    ensures
        points_left(points) == rect.points(),
{
    Rectangle::new(Point::new(rect.x, rect.y), Size::new(rect.width, rect.height)).points()
}

/// Takes the next point with `Iterator::next` of `Points`. Trusted: it yields
/// the first of the points that are left and keeps the others, or nothing
/// when none is left.
#[verifier::external_body]
pub(crate) fn points_next(points: &mut Points) -> (next: Option<(i32, i32)>)
    ensures
        match next {
            Some(point) => {
                &&& points_left(*old(points)).len() > 0
                &&& (point.0 as int, point.1 as int) == points_left(*old(points))[0]
                &&& points_left(*final(points)) == points_left(*old(points)).drop_first()
            },
            None => {
                &&& points_left(*old(points)).len() == 0
                &&& points_left(*final(points)).len() == 0
            },
        },
{
    points.next().map(|point| (point.x, point.y))
}

} // verus!
