//! Face detection.

pub mod base;
pub mod location;

pub use self::base::FaceDetectorTrait;
pub use self::location::FaceLocations;
