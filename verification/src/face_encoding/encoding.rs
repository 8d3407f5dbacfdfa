//! One face encoding: a vector of 128 doubles.

use crate::binary64;
use vstd::prelude::*;
use vstd::std_specs::cmp::PartialEqSpecImpl;

verus! {

/// The number of values in an encoding.
pub const ENCODING_LEN: usize = 128;

/// A face encoding: 128 doubles, each held as its binary64 bit pattern.
#[derive(Debug)]
pub struct FaceEncoding {
    values: Vec<u64>,
}

/// The array handed to [`FaceEncoding::from_vec`] has not 128 elements.
#[derive(Copy, Clone, Debug, PartialEq, Eq, Structural)]
pub struct ArraySizeError;

impl ArraySizeError {
    /// The text that describes the error.
    pub fn message(&self) -> (text: String)
        ensures
            text@ == "Invalid array size provided for from_vec."@,
    {
        "Invalid array size provided for from_vec.".to_owned()
    }
}

impl View for FaceEncoding {
    type V = Seq<u64>;

    /// The 128 bit patterns, in order.
    closed spec fn view(&self) -> Seq<u64> {
        self.values@
    }
}

impl FaceEncoding {
    #[verifier::type_invariant]
    spec fn holds_all_values(self) -> bool {
        self.values@.len() == ENCODING_LEN
    }

    /// The encoding has its 128 values. Every encoding that executable code
    /// holds is valid.
    pub open spec fn is_valid(&self) -> bool {
        self@.len() == ENCODING_LEN
    }

    /// Create a new encoding initialised with a scalar value.
    pub fn new_from_scalar(scalar: u64) -> (encoding: Self)
        ensures
            encoding.is_valid(),
            forall|i: int| 0 <= i < ENCODING_LEN ==> encoding@[i] == scalar,
    {
        let mut values: Vec<u64> = Vec::with_capacity(ENCODING_LEN);
        let mut i: usize = 0;
        while i < ENCODING_LEN
            invariant
                i <= ENCODING_LEN,
                values@.len() == i,
                forall|j: int| 0 <= j < i ==> values@[j] == scalar,
            decreases ENCODING_LEN - i,
        {
            values.push(scalar);
            i += 1;
        }
        Self { values }
    }

    /// Create a new encoding from previously stored values: succeeds exactly
    /// where there are 128 of them, and then holds those values.
    pub fn from_vec(values: &Vec<u64>) -> (made: Result<Self, ArraySizeError>)
        ensures
            values@.len() == ENCODING_LEN ==> made is Ok && made->Ok_0@ == values@,
            values@.len() != ENCODING_LEN ==> made == Err::<Self, ArraySizeError>(ArraySizeError),
    {
        if values.len() == ENCODING_LEN {
            Ok(Self { values: values.clone() })
        } else {
            Err(ArraySizeError)
        }
    }

    /// The 128 values, in order.
    pub fn as_slice(&self) -> (values: &[u64])
        ensures
            values@ == self@,
            values@.len() == ENCODING_LEN,
    {
        proof {
            use_type_invariant(self);
        }
        self.values.as_slice()
    }
}

impl AsRef<[u64]> for FaceEncoding {
    fn as_ref(&self) -> (values: &[u64])
        ensures
            values@ == self@,
    {
        self.values.as_slice()
    }
}

impl Clone for FaceEncoding {
    fn clone(&self) -> (copy: Self)
        ensures
            copy@ == self@,
    {
        proof {
            use_type_invariant(self);
        }
        Self { values: self.values.clone() }
    }
}

impl PartialEqSpecImpl for FaceEncoding {
    open spec fn obeys_eq_spec() -> bool {
        true
    }

    /// Element by element numeric equality.
    open spec fn eq_spec(&self, other: &Self) -> bool {
        &&& self@.len() == other@.len()
        &&& forall|i: int| 0 <= i < self@.len() ==> binary64::same_value(self@[i], other@[i])
    }
}

impl PartialEq for FaceEncoding {
    fn eq(&self, other: &Self) -> (same: bool)
    {
        proof {
            use_type_invariant(self);
            use_type_invariant(other);
        }
        let mut i: usize = 0;
        while i < ENCODING_LEN
            invariant
                i <= ENCODING_LEN,
                self.values@.len() == ENCODING_LEN,
                other.values@.len() == ENCODING_LEN,
                forall|j: int| 0 <= j < i ==> binary64::same_value(self.values@[j], other.values@[j]),
            decreases ENCODING_LEN - i,
        {
            if !binary64::is_same_value(self.values[i], other.values[i]) {
                return false;
            }
            i += 1;
        }
        true
    }
}

} // verus!
