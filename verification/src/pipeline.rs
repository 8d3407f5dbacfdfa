//! The stages in a row: from an image to the identities of its faces.
//!
//! Detection gives the face rectangles of an image; prediction gives the
//! landmarks of each rectangle; encoding gives one encoding for each set of
//! landmarks; the gallery answers each encoding with an enrolled record or
//! with none. The faces of one image do not depend on one another, and what
//! comes out keeps the order in which the detector reported them.

use crate::face_detection::base::FaceDetectorTrait;
use crate::face_detection::location::FaceLocations;
use crate::face_encoding::base::FaceEncoderTrait;
use crate::face_encoding::compare;
use crate::face_encoding::compare::FaceComparer;
use crate::face_encoding::encoding::FaceEncoding;
use crate::face_encoding::encodings::FaceEncodings;
use crate::geometry::Rectangle;
use crate::landmark_prediction;
use crate::landmark_prediction::base::LandmarkPredictorTrait;
use crate::landmark_prediction::landmarks::FaceLandmarks;
use crate::matrix::ImageMatrix;
use vstd::prelude::*;

verus! {

/// Each set of landmarks is one that the predictor may give for the
/// rectangle at the same position.
pub open spec fn predicted<P: LandmarkPredictorTrait>(
    predictor: &P,
    image: &ImageMatrix,
    rectangles: Seq<Rectangle>,
    landmarks: Seq<FaceLandmarks>,
) -> bool {
    &&& landmarks.len() == rectangles.len()
    &&& forall|i: int|
        0 <= i < landmarks.len() ==> call_ensures(
            P::face_landmarks,
            (predictor, image, &rectangles[i]),
            #[trigger] landmarks[i],
        )
}

/// The locations are what the detector may give for the image, and the
/// encodings what the encoder may give for landmarks that the predictor may
/// give for those locations.
pub open spec fn encoded<D: FaceDetectorTrait, P: LandmarkPredictorTrait, E: FaceEncoderTrait>(
    detector: &D,
    predictor: &P,
    encoder: &E,
    image: &ImageMatrix,
    num_jitters: u32,
    locations: FaceLocations,
    encodings: FaceEncodings,
) -> bool {
    &&& call_ensures(D::face_locations, (detector, image), locations)
    &&& exists|landmarks: &[FaceLandmarks]| #[trigger]
        predicted(predictor, image, locations@, landmarks@) && call_ensures(
            E::get_face_encodings,
            (encoder, image, landmarks, num_jitters),
            encodings,
        )
}

/// Landmarks predicted by a predictor whose model defines `count` of them
/// have `count` points each, whatever the rectangles.
pub proof fn lemma_predicted_have_count<P: LandmarkPredictorTrait>(
    predictor: &P,
    image: &ImageMatrix,
    rectangles: Seq<Rectangle>,
    landmarks: Seq<FaceLandmarks>,
    count: nat,
)
    requires
        landmark_prediction::base::predicts_count(predictor, count),
        predicted(predictor, image, rectangles, landmarks),
    ensures
        forall|i: int| 0 <= i < landmarks.len() ==> (#[trigger] landmarks[i])@.len() == count,
{
}

/// The landmarks of every located face, in the order of the locations.
pub fn predict_landmarks<P: LandmarkPredictorTrait>(
    predictor: &P,
    image: &ImageMatrix,
    locations: &FaceLocations,
) -> (landmarks: Vec<FaceLandmarks>)
    ensures
        predicted(predictor, image, locations@, landmarks@),
{
    let mut landmarks: Vec<FaceLandmarks> = Vec::new();
    let mut i: usize = 0;
    while i < locations.len()
        invariant
            i <= locations@.len(),
            predicted(predictor, image, locations@.take(i as int), landmarks@),
        decreases locations@.len() - i,
    {
        let rectangles = locations.as_slice();
        landmarks.push(predictor.face_landmarks(image, &rectangles[i]));
        i += 1;
    }
    assert(locations@.take(i as int) =~= locations@);
    landmarks
}

/// The faces of an image with their encodings: the rectangle at each
/// position belongs to the encoding at the same position.
pub fn encode_faces<D: FaceDetectorTrait, P: LandmarkPredictorTrait, E: FaceEncoderTrait>(
    detector: &D,
    predictor: &P,
    encoder: &E,
    image: &ImageMatrix,
    num_jitters: u32,
) -> (faces: (FaceLocations, FaceEncodings))
    ensures
        encoded(detector, predictor, encoder, image, num_jitters, faces.0, faces.1),
        faces.0.all_ordered(),
        faces.1@.len() == faces.0@.len(),
{
    let locations = detector.face_locations(image);
    let landmarks = predict_landmarks(predictor, image, &locations);
    let sets = landmarks.as_slice();
    let encodings = encoder.get_face_encodings(image, sets, num_jitters);
    assert(predicted(predictor, image, locations@, sets@));
    (locations, encodings)
}

/// The answer of the gallery to each encoding, in the order of the
/// encodings.
pub fn identify<F: Fn(&FaceEncoding, &FaceEncoding) -> u64>(
    gallery: &FaceComparer,
    encodings: &FaceEncodings,
    distance: &F,
) -> (found: Vec<Option<usize>>)
    requires
        gallery.wf(),
        forall|key: usize, i: int|
            gallery@.contains_key(key) && 0 <= i < encodings@.len() ==> #[trigger] call_requires(
                *distance,
                (&gallery@[key].encoding, &encodings@[i]),
            ),
    ensures
        found@.len() == encodings@.len(),
        forall|i: int|
            0 <= i < found@.len() ==> compare::answers(
                gallery@,
                gallery.tolerance(),
                encodings@[i],
                *distance,
                #[trigger] found@[i],
            ),
{
    let mut found: Vec<Option<usize>> = Vec::new();
    let mut i: usize = 0;
    while i < encodings.len()
        invariant
            gallery.wf(),
            i <= encodings@.len(),
            found@.len() == i,
            forall|key: usize, j: int|
                gallery@.contains_key(key) && 0 <= j < encodings@.len()
                    ==> #[trigger] call_requires(
                    *distance,
                    (&gallery@[key].encoding, &encodings@[j]),
                ),
            forall|j: int|
                0 <= j < found@.len() ==> compare::answers(
                    gallery@,
                    gallery.tolerance(),
                    encodings@[j],
                    *distance,
                    #[trigger] found@[j],
                ),
        decreases encodings@.len() - i,
    {
        let faces = encodings.as_slice();
        let answer = gallery.find(&faces[i], distance);
        found.push(answer);
        i += 1;
    }
    found
}

} // verus!
