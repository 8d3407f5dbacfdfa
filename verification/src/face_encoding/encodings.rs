//! The encodings of the faces of one image.

use crate::face_encoding::encoding::FaceEncoding;
use vstd::prelude::*;

verus! {

/// Face encodings, one for each set of landmarks that was encoded, in the
/// order of those sets.
#[derive(Debug)]
pub struct FaceEncodings {
    encodings: Vec<FaceEncoding>,
}

impl View for FaceEncodings {
    type V = Seq<FaceEncoding>;

    closed spec fn view(&self) -> Seq<FaceEncoding> {
        self.encodings@
    }
}

impl FaceEncodings {
    /// The collection that holds these encodings, in this order.
    pub fn new(encodings: Vec<FaceEncoding>) -> (collection: Self)
        ensures
            collection@ == encodings@,
    {
        Self { encodings }
    }

    pub fn len(&self) -> (count: usize)
        ensures
            count == self@.len(),
    {
        self.encodings.len()
    }

    pub fn is_empty(&self) -> (empty: bool)
        ensures
            empty == (self@.len() == 0),
    {
        self.encodings.len() == 0
    }

    /// The encoding at `index`, or `None` where there are not that many.
    pub fn get(&self, index: usize) -> (encoding: Option<&FaceEncoding>)
        ensures
            encoding == (if index < self@.len() {
                Some(&self@[index as int])
            } else {
                None
            }),
    {
        if index < self.encodings.len() {
            Some(&self.encodings[index])
        } else {
            None
        }
    }

    pub fn as_slice(&self) -> (encodings: &[FaceEncoding])
        ensures
            encodings@ == self@,
    {
        self.encodings.as_slice()
    }
}

impl Default for FaceEncodings {
    fn default() -> (collection: Self)
        ensures
            collection@ == Seq::<FaceEncoding>::empty(),
    {
        Self { encodings: Vec::new() }
    }
}

impl std::ops::Deref for FaceEncodings {
    type Target = [FaceEncoding];

    fn deref(&self) -> (encodings: &[FaceEncoding])
        ensures
            encodings@ == self@,
    {
        self.encodings.as_slice()
    }
}

} // verus!
