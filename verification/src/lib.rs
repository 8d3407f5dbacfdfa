//! Face identity matching: geometry, images, encodings and a gallery of
//! enrolled identities, with the contracts of the model-driven stages.

pub mod base;
pub mod binary64;
pub mod embed;
pub mod face_detection;
pub mod face_encoding;
pub mod geometry;
pub mod landmark_prediction;
pub mod matrix;
pub mod pipeline;

pub use self::face_detection::{FaceDetectorTrait, FaceLocations};
pub use self::face_encoding::{
    ArraySizeError, Candidate, EncodePass, FaceComparer, FaceEncoderTrait, FaceEncoding,
    FaceEncodings,
};
pub use self::geometry::{Point, Rectangle};
pub use self::landmark_prediction::{FaceLandmarks, LandmarkPredictorTrait};
pub use self::matrix::{BufferSizeError, ImageMatrix, RgbBuffer};
