//! Face encodings and the gallery that matches them.

pub mod base;
pub mod compare;
pub mod encoding;
pub mod encodings;

pub use self::base::{EncodePass, FaceEncoderTrait};
pub use self::compare::{Candidate, FaceComparer};
pub use self::encoding::{ArraySizeError, FaceEncoding};
pub use self::encodings::FaceEncodings;
