//! The landmarks that a predictor placed on one face.

use crate::geometry::Point;
use vstd::prelude::*;

verus! {

/// The landmark points of one face, in the order of the model that placed
/// them. Landmarks that no predictor made are empty.
#[derive(Debug)]
pub struct FaceLandmarks {
    points: Vec<Point>,
}

impl View for FaceLandmarks {
    type V = Seq<Point>;

    closed spec fn view(&self) -> Seq<Point> {
        self.points@
    }
}

impl FaceLandmarks {
    /// The landmarks that hold these points, in this order.
    pub fn new(points: Vec<Point>) -> (landmarks: Self)
        ensures
            landmarks@ == points@,
    {
        Self { points }
    }

    pub fn len(&self) -> (count: usize)
        ensures
            count == self@.len(),
    {
        self.points.len()
    }

    pub fn is_empty(&self) -> (empty: bool)
        ensures
            empty == (self@.len() == 0),
    {
        self.points.len() == 0
    }

    /// The point at `index`, or `None` where there are not that many.
    pub fn get(&self, index: usize) -> (point: Option<&Point>)
        ensures
            point == (if index < self@.len() {
                Some(&self@[index as int])
            } else {
                None
            }),
    {
        if index < self.points.len() {
            Some(&self.points[index])
        } else {
            None
        }
    }

    pub fn as_slice(&self) -> (points: &[Point])
        ensures
            points@ == self@,
    {
        self.points.as_slice()
    }
}

impl Default for FaceLandmarks {
    fn default() -> (landmarks: Self)
        ensures
            landmarks@ == Seq::<Point>::empty(),
    {
        Self { points: Vec::new() }
    }
}

impl std::ops::Deref for FaceLandmarks {
    type Target = [Point];

    fn deref(&self) -> (points: &[Point])
        ensures
            points@ == self@,
    {
        self.points.as_slice()
    }
}

} // verus!
