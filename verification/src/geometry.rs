//! Plain geometric values shared by every stage.

use vstd::prelude::*;

verus! {

/// A 2D point with signed integer coordinates.
#[derive(Copy, Clone, Default, Debug, PartialEq, Eq)]
pub struct Point(pub [i64; 2]);

impl Point {
    /// The horizontal coordinate, as a mathematical integer.
    pub open spec fn spec_x(&self) -> int {
        self.0[0] as int
    }

    /// The vertical coordinate, as a mathematical integer.
    pub open spec fn spec_y(&self) -> int {
        self.0[1] as int
    }

    pub fn new(x: i64, y: i64) -> (p: Self)
        ensures
            p.spec_x() == x,
            p.spec_y() == y,
    {
        Self([x, y])
    }

    pub fn x(&self) -> (x: i64)
        ensures
            x == self.spec_x(),
    {
        self.0[0]
    }

    pub fn y(&self) -> (y: i64)
        ensures
            y == self.spec_y(),
    {
        self.0[1]
    }
}

impl std::ops::Deref for Point {
    type Target = [i64; 2];

    /// Both coordinates, `x` first.
    fn deref(&self) -> (coords: &[i64; 2])
        ensures
            coords[0] == self.spec_x(),
            coords[1] == self.spec_y(),
    {
        &self.0
    }
}

impl AsRef<[i64]> for Point {
    /// Both coordinates, `x` first.
    fn as_ref(&self) -> (coords: &[i64])
        ensures
            coords@ == self.0@,
    {
        self.0.as_slice()
    }
}

/// An axis-aligned rectangle given by its four bounds.
///
/// Nothing is checked on construction: a rectangle a detector reports
/// satisfies [`Rectangle::is_ordered`], one built by hand need not.
#[derive(Copy, Clone, Default, Debug, PartialEq, Eq, Structural)]
pub struct Rectangle {
    pub left: i64,
    pub top: i64,
    pub right: i64,
    pub bottom: i64,
}

impl Rectangle {
    /// `left <= right` and `top <= bottom`.
    pub open spec fn is_ordered(&self) -> bool {
        self.left <= self.right && self.top <= self.bottom
    }

    /// `right - left`, without machine limits.
    pub open spec fn spec_width(&self) -> int {
        self.right - self.left
    }

    /// `bottom - top`, without machine limits.
    pub open spec fn spec_height(&self) -> int {
        self.bottom - self.top
    }

    /// Both extents fit in an `i64`.
    pub open spec fn extents_fit(&self) -> bool {
        &&& i64::MIN <= self.spec_width() <= i64::MAX
        &&& i64::MIN <= self.spec_height() <= i64::MAX
    }

    pub fn width(&self) -> (w: i64)
        requires
            i64::MIN <= self.spec_width() <= i64::MAX,
        ensures
            w == self.spec_width(),
    {
        self.right - self.left
    }

    pub fn height(&self) -> (h: i64)
        requires
            i64::MIN <= self.spec_height() <= i64::MAX,
        ensures
            h == self.spec_height(),
    {
        self.bottom - self.top
    }

    /// Width and height as one point.
    pub fn size(&self) -> (s: Point)
        requires
            self.extents_fit(),
        ensures
            s.spec_x() == self.spec_width(),
            s.spec_y() == self.spec_height(),
    {
        Point::new(self.width(), self.height())
    }

    /// The width, or `None` where it does not fit in an `i64`.
    pub fn checked_width(&self) -> (w: Option<i64>)
        ensures
            w == (if i64::MIN <= self.spec_width() <= i64::MAX {
                Some(self.spec_width() as i64)
            } else {
                None
            }),
    {
        self.right.checked_sub(self.left)
    }

    /// The height, or `None` where it does not fit in an `i64`.
    pub fn checked_height(&self) -> (h: Option<i64>)
        ensures
            h == (if i64::MIN <= self.spec_height() <= i64::MAX {
                Some(self.spec_height() as i64)
            } else {
                None
            }),
    {
        self.bottom.checked_sub(self.top)
    }
}

} // verus!
