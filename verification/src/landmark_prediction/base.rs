//! What a landmark predictor does.

use crate::geometry::Rectangle;
use crate::landmark_prediction::landmarks::FaceLandmarks;
use crate::matrix::ImageMatrix;
use vstd::prelude::*;

verus! {

pub trait LandmarkPredictorTrait {
    /// Detect face landmarks. Whatever the rectangle, the landmarks are as
    /// many as the loaded model defines: a poor rectangle gives poor
    /// landmarks, never fewer.
    fn face_landmarks(&self, image: &ImageMatrix, rect: &Rectangle) -> (landmarks: FaceLandmarks);
}

/// Every prediction of `predictor` has `count` landmarks: what holds of a
/// predictor whose model defines that many.
pub open spec fn predicts_count<P: LandmarkPredictorTrait>(predictor: &P, count: nat) -> bool {
    forall|image: &ImageMatrix, rect: &Rectangle, landmarks: FaceLandmarks| #[trigger]
        call_ensures(P::face_landmarks, (predictor, image, rect), landmarks) ==> landmarks@.len()
            == count
}

} // verus!
