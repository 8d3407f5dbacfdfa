//! What a face detector does.

use crate::face_detection::location::FaceLocations;
use crate::matrix::ImageMatrix;
use vstd::prelude::*;

verus! {

pub trait FaceDetectorTrait {
    /// Detect face rectangles from an image. Each rectangle that a detector
    /// reports has `left <= right` and `top <= bottom`.
    fn face_locations(&self, image: &ImageMatrix) -> (locations: FaceLocations)
        ensures
            locations.all_ordered(),
    ;
}

} // verus!
