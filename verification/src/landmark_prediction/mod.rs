//! Predicting face landmark locations from images and face rectangles.

pub mod base;
pub mod landmarks;

pub use self::base::LandmarkPredictorTrait;
pub use self::landmarks::FaceLandmarks;
