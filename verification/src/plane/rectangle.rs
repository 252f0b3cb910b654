use vstd::prelude::*;

use crate::plane::point::Point;
use crate::plane::size::Size;

verus! {

/// An axis-aligned rectangle: the position of its top-left corner together
/// with its dimensions.
///
/// The coordinate system is taken to be y-down: `origin` is the corner with
/// the least coordinates, and adding the dimensions to it reaches the
/// bottom-right corner. The dimensions are not validated; a zero or negative
/// width or height is accepted and simply moves the "maximum" corner the
/// other way.
#[derive(Copy, Debug, PartialEq, Eq, Structural)]
pub struct Rectangle<I> {
    /// The position of the top-left corner of the rectangle in relation to a
    /// reference origin.
    pub origin: Point<I>,
    /// The dimensions.
    pub dimensions: Size<I>,
}

impl<I: Copy> Clone for Rectangle<I> {
    /// Duplicating a rectangle yields a value equal to the original.
    fn clone(&self) -> (res: Self)
        ensures
            res == *self,
    {
        *self
    }
}

impl<I: Copy> Rectangle<I> {
    /// Returns the least x-coordinate: the x-coordinate of the origin.
    pub fn min_x(&self) -> (r: I)
        ensures
            r == self.origin.x,
    {
        self.origin.x
    }

    /// Returns the least y-coordinate: the y-coordinate of the origin.
    pub fn min_y(&self) -> (r: I)
        ensures
            r == self.origin.y,
    {
        self.origin.y
    }

    /// Returns the minimum point within the bounds of the rectangle: the
    /// origin itself.
    pub fn min(&self) -> (r: Point<I>)
        ensures
            r == self.origin,
    {
        Point { x: self.min_x(), y: self.min_y() }
    }
}

impl Rectangle<i64> {
    /// The greatest x-coordinate, as an unbounded integer: origin plus width.
    pub open spec fn spec_max_x(self) -> int {
        self.origin.x + self.dimensions.width
    }

    /// The greatest y-coordinate, as an unbounded integer: origin plus height.
    pub open spec fn spec_max_y(self) -> int {
        self.origin.y + self.dimensions.height
    }

    /// Whether origin plus width stays within the coordinate type.
    pub open spec fn max_x_in_range(self) -> bool {
        i64::MIN <= self.spec_max_x() <= i64::MAX
    }

    /// Whether origin plus height stays within the coordinate type.
    pub open spec fn max_y_in_range(self) -> bool {
        i64::MIN <= self.spec_max_y() <= i64::MAX
    }

    /// The minimum corner: the origin, as a point of unbounded integers.
    pub open spec fn spec_min(self) -> Point<int> {
        Point { x: self.origin.x as int, y: self.origin.y as int }
    }

    /// The maximum corner, as a point of unbounded integers.
    pub open spec fn spec_max(self) -> Point<int> {
        Point { x: self.spec_max_x(), y: self.spec_max_y() }
    }

    /// The top-right corner, as a point of unbounded integers.
    pub open spec fn spec_top_right(self) -> Point<int> {
        Point { x: self.spec_max_x(), y: self.origin.y as int }
    }

    /// The bottom-left corner, as a point of unbounded integers.
    pub open spec fn spec_bottom_left(self) -> Point<int> {
        Point { x: self.origin.x as int, y: self.spec_max_y() }
    }

    /// The bottom-right corner: the same point as the maximum corner.
    pub open spec fn spec_bottom_right(self) -> Point<int> {
        self.spec_max()
    }

    /// Returns the greatest x-coordinate: `origin.x + dimensions.width`.
    pub fn max_x(&self) -> (r: i64)
        requires
            self.max_x_in_range(),
        ensures
            r == self.spec_max_x(),
    {
        self.origin.x + self.dimensions.width
    }

    /// Returns the greatest y-coordinate: `origin.y + dimensions.height`.
    pub fn max_y(&self) -> (r: i64)
        requires
            self.max_y_in_range(),
        ensures
            r == self.spec_max_y(),
    {
        self.origin.y + self.dimensions.height
    }

    /// Returns the maximum point within the bounds of the rectangle.
    pub fn max(&self) -> (r: Point<i64>)
        requires
            self.max_x_in_range(),
            self.max_y_in_range(),
        ensures
            r.x == self.spec_max().x,
            r.y == self.spec_max().y,
    {
        Point { x: self.max_x(), y: self.max_y() }
    }

    /// Returns the point at the top-right corner.
    pub fn top_right(&self) -> (r: Point<i64>)
        requires
            self.max_x_in_range(),
        ensures
            r.x == self.spec_top_right().x,
            r.y == self.spec_top_right().y,
    {
        Point { x: self.max_x(), y: self.min_y() }
    }

    /// Returns the point at the bottom-left corner.
    pub fn bottom_left(&self) -> (r: Point<i64>)
        requires
            self.max_y_in_range(),
        ensures
            r.x == self.spec_bottom_left().x,
            r.y == self.spec_bottom_left().y,
    {
        Point { x: self.min_x(), y: self.max_y() }
    }

    /// Returns the point at the bottom-right corner.
    pub fn bottom_right(&self) -> (r: Point<i64>)
        requires
            self.max_x_in_range(),
            self.max_y_in_range(),
        ensures
            r.x == self.spec_bottom_right().x,
            r.y == self.spec_bottom_right().y,
    {
        self.max()
    }
}

/// The rectangle described by `(x, y, width, height)`.
pub open spec fn rect_of_tuple<I>(t: (I, I, I, I)) -> Rectangle<I> {
    Rectangle { origin: Point { x: t.0, y: t.1 }, dimensions: Size { width: t.2, height: t.3 } }
}

/// The `(x, y, width, height)` description of a rectangle.
pub open spec fn tuple_of_rect<I>(r: Rectangle<I>) -> (I, I, I, I) {
    (r.origin.x, r.origin.y, r.dimensions.width, r.dimensions.height)
}

impl<I> vstd::std_specs::convert::FromSpecImpl<(I, I, I, I)> for Rectangle<I> {
    open spec fn obeys_from_spec() -> bool {
        true
    }

    open spec fn from_spec(t: (I, I, I, I)) -> Self {
        rect_of_tuple(t)
    }
}

impl<I> From<(I, I, I, I)> for Rectangle<I> {
    fn from(t: (I, I, I, I)) -> (r: Rectangle<I>)
        ensures
            r == rect_of_tuple(t),
    {
        let (x, y, width, height) = t;
        Rectangle { origin: Point { x, y }, dimensions: Size { width, height } }
    }
}

/// The rectangle described by `[x, y, width, height]`, taken positionally.
pub open spec fn rect_of_array<I>(a: [I; 4]) -> Rectangle<I> {
    Rectangle {
        origin: Point { x: a[0], y: a[1] },
        dimensions: Size { width: a[2], height: a[3] },
    }
}

/// The `[x, y, width, height]` description of a rectangle.
pub open spec fn array_of_rect<I>(r: Rectangle<I>) -> [I; 4] {
    [r.origin.x, r.origin.y, r.dimensions.width, r.dimensions.height]
}

impl<I: Copy> vstd::std_specs::convert::FromSpecImpl<[I; 4]> for Rectangle<I> {
    open spec fn obeys_from_spec() -> bool {
        true
    }

    open spec fn from_spec(a: [I; 4]) -> Self {
        rect_of_array(a)
    }
}

impl<I: Copy> From<[I; 4]> for Rectangle<I> {
    fn from(a: [I; 4]) -> (r: Rectangle<I>)
        ensures
            r == rect_of_array(a),
    {
        Rectangle {
            origin: Point { x: a[0], y: a[1] },
            dimensions: Size { width: a[2], height: a[3] },
        }
    }
}

impl<I> vstd::std_specs::convert::IntoSpecImpl<(I, I, I, I)> for Rectangle<I> {
    open spec fn obeys_into_spec() -> bool {
        true
    }

    open spec fn into_spec(self) -> (I, I, I, I) {
        tuple_of_rect(self)
    }
}

impl<I> Into<(I, I, I, I)> for Rectangle<I> {
    fn into(self) -> (I, I, I, I) {
        (self.origin.x, self.origin.y, self.dimensions.width, self.dimensions.height)
    }
}

impl<I> vstd::std_specs::convert::IntoSpecImpl<[I; 4]> for Rectangle<I> {
    open spec fn obeys_into_spec() -> bool {
        true
    }

    open spec fn into_spec(self) -> [I; 4] {
        array_of_rect(self)
    }
}

impl<I> Into<[I; 4]> for Rectangle<I> {
    fn into(self) -> [I; 4] {
        [self.origin.x, self.origin.y, self.dimensions.width, self.dimensions.height]
    }
}

/// The maximum corner pairs the two maximum coordinates, and the
/// bottom-right corner is that same point.
pub proof fn lemma_max_pairs_maxima(r: Rectangle<i64>)
    ensures
        r.spec_max() == (Point { x: r.spec_max_x(), y: r.spec_max_y() }),
        r.spec_bottom_right() == r.spec_max(),
{
}

/// The mixed corners pair a maximum coordinate with a minimum one: the
/// top-right corner is `(max_x, min_y)` and the bottom-left corner is
/// `(min_x, max_y)`.
pub proof fn lemma_mixed_corners(r: Rectangle<i64>)
    ensures
        r.spec_top_right() == (Point { x: r.spec_max_x(), y: r.spec_min().y }),
        r.spec_bottom_left() == (Point { x: r.spec_min().x, y: r.spec_max_y() }),
{
}

/// Converting an `(x, y, width, height)` tuple into a rectangle and back
/// yields the tuple unchanged, and likewise starting from the rectangle.
pub proof fn lemma_tuple_round_trip<I>(t: (I, I, I, I), r: Rectangle<I>)
    ensures
        tuple_of_rect(rect_of_tuple(t)) == t,
        rect_of_tuple(tuple_of_rect(r)) == r,
{
}

/// Converting an `[x, y, width, height]` array into a rectangle and back
/// yields the array unchanged, and likewise starting from the rectangle.
pub proof fn lemma_array_round_trip<I>(a: [I; 4], r: Rectangle<I>)
    ensures
        array_of_rect(rect_of_array(a)) == a,
        rect_of_array(array_of_rect(r)) == r,
{
    assert(array_of_rect(rect_of_array(a)) =~= a);
}

/// Rectangles are equal exactly when their origins and dimensions are
/// equal field for field; in particular, two rectangles built from equal
/// field values are equal, and equality is symmetric.
pub proof fn lemma_eq_is_structural<I>(r1: Rectangle<I>, r2: Rectangle<I>)
    ensures
        (r1 == r2) <==> (r1.origin.x == r2.origin.x && r1.origin.y == r2.origin.y
            && r1.dimensions.width == r2.dimensions.width
            && r1.dimensions.height == r2.dimensions.height),
        (r1 == r2) <==> (r2 == r1),
{
}

} // verus!
