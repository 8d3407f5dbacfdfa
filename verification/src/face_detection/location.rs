//! The rectangles that a detector found.

use crate::geometry::Rectangle;
use vstd::prelude::*;

verus! {

/// Face rectangles, in the order in which the detector reported them.
#[derive(Debug)]
pub struct FaceLocations {
    rectangles: Vec<Rectangle>,
}

impl View for FaceLocations {
    type V = Seq<Rectangle>;

    closed spec fn view(&self) -> Seq<Rectangle> {
        self.rectangles@
    }
}

impl FaceLocations {
    /// Every rectangle has `left <= right` and `top <= bottom`.
    pub open spec fn all_ordered(&self) -> bool {
        forall|i: int| 0 <= i < self@.len() ==> (#[trigger] self@[i]).is_ordered()
    }

    /// The locations that hold these rectangles, in this order.
    pub fn new(rectangles: Vec<Rectangle>) -> (locations: Self)
        ensures
            locations@ == rectangles@,
    {
        Self { rectangles }
    }

    pub fn len(&self) -> (count: usize)
        ensures
            count == self@.len(),
    {
        self.rectangles.len()
    }

    pub fn is_empty(&self) -> (empty: bool)
        ensures
            empty == (self@.len() == 0),
    {
        self.rectangles.len() == 0
    }

    /// The rectangle at `index`, or `None` where there are not that many.
    pub fn get(&self, index: usize) -> (rectangle: Option<&Rectangle>)
        ensures
            rectangle == (if index < self@.len() {
                Some(&self@[index as int])
            } else {
                None
            }),
    {
        if index < self.rectangles.len() {
            Some(&self.rectangles[index])
        } else {
            None
        }
    }

    pub fn as_slice(&self) -> (rectangles: &[Rectangle])
        ensures
            rectangles@ == self@,
    {
        self.rectangles.as_slice()
    }
}

impl Default for FaceLocations {
    fn default() -> (locations: Self)
        ensures
            locations@ == Seq::<Rectangle>::empty(),
    {
        Self { rectangles: Vec::new() }
    }
}

impl std::ops::Deref for FaceLocations {
    type Target = [Rectangle];

    fn deref(&self) -> (rectangles: &[Rectangle])
        ensures
            rectangles@ == self@,
    {
        self.rectangles.as_slice()
    }
}

} // verus!
