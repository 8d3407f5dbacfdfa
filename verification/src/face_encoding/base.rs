//! What a face encoder does.

use crate::face_encoding::encodings::FaceEncodings;
use crate::landmark_prediction::landmarks::FaceLandmarks;
use crate::matrix::ImageMatrix;
use vstd::prelude::*;

verus! {

/// How an encoder runs its network on the aligned face chips.
#[derive(Copy, Clone, Debug, PartialEq, Eq, Structural)]
pub enum EncodePass {
    /// Every chip goes through the network once, all in one batch.
    Batch,
    /// Of each chip `variants` randomly perturbed copies go through the
    /// network, and the chip's encoding is the element-wise mean of theirs.
    Jittered { variants: u32 },
}

impl EncodePass {
    /// The pass that a jitter count asks for: perturbed copies from a count
    /// of two on, and then as many as the count.
    pub open spec fn for_jitters(num_jitters: u32) -> EncodePass {
        if num_jitters <= 1 {
            EncodePass::Batch
        } else {
            EncodePass::Jittered { variants: num_jitters }
        }
    }

    pub fn from_jitters(num_jitters: u32) -> (pass: EncodePass)
        ensures
            pass == EncodePass::for_jitters(num_jitters),
    {
        if num_jitters <= 1 {
            EncodePass::Batch
        } else {
            EncodePass::Jittered { variants: num_jitters }
        }
    }
}

pub trait FaceEncoderTrait {
    /// Get a number of face encodings from an image and a list of landmarks,
    /// and jitter them a certain amount: one encoding for each set of
    /// landmarks, in the same order.
    fn get_face_encodings(
        &self,
        image: &ImageMatrix,
        landmarks: &[FaceLandmarks],
        num_jitters: u32,
    ) -> (encodings: FaceEncodings)
        ensures
            encodings@.len() == landmarks@.len(),
    ;
}

} // verus!
