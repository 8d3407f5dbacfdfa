//! Loading a model from a file: what is decided around the reading itself.
//!
//! A model is read in two steps. The path is first turned into a C string,
//! which fails where no file is there; the bytes of the file are then
//! deserialized by the model's own code, which may fail in turn. Both
//! failures carry the path.

use vstd::prelude::*;
use vstd::slice::slice_to_vec;
use vstd::string::StringExecFns;
use vstd::string::StringSliceAdditionalSpecFns;

verus! {

/// Why a model could not be loaded.
#[derive(Debug, PartialEq, Eq)]
pub enum ModelError {
    /// No file is at the path; nothing was read.
    NotFound(String),
    /// The file at the path does not hold a model of the expected kind.
    DeserializationFailed(String),
}

impl ModelError {
    /// The text of [`ModelError::message`].
    pub open spec fn spec_message(&self) -> Seq<char> {
        match self {
            ModelError::NotFound(path) => "File not found: '"@ + path@ + "'"@,
            ModelError::DeserializationFailed(path) => "Failed to deserialize '"@ + path@ + "'"@,
        }
    }

    /// The path that was to be loaded.
    pub fn path(&self) -> (path: &str)
        ensures
            path@ == (match self {
                ModelError::NotFound(p) => p@,
                ModelError::DeserializationFailed(p) => p@,
            }),
    {
        match self {
            ModelError::NotFound(p) => p.as_str(),
            ModelError::DeserializationFailed(p) => p.as_str(),
        }
    }

    /// The text that describes the error, with the path in single quotes.
    pub fn message(&self) -> (text: String)
        ensures
            text@ == self.spec_message(),
    {
        let (head, path) = match self {
            ModelError::NotFound(p) => ("File not found: '", p),
            ModelError::DeserializationFailed(p) => ("Failed to deserialize '", p),
        };
        let mut text = head.to_owned();
        text.append(path.as_str());
        text.append("'");
        text
    }
}

impl Clone for ModelError {
    fn clone(&self) -> (copy: Self)
        ensures
            copy == *self,
    {
        match self {
            ModelError::NotFound(path) => ModelError::NotFound(path.clone()),
            ModelError::DeserializationFailed(path) => ModelError::DeserializationFailed(
                path.clone(),
            ),
        }
    }
}

/// The bytes of `path` hold no zero byte, so that they can end in one.
pub open spec fn is_c_text(path: &str) -> bool {
    forall|i: int| 0 <= i < path.spec_bytes().len() ==> path.spec_bytes()[i] != 0
}

/// The path as a C string: its bytes and a closing zero byte. Where no file
/// exists at the path, that is the answer and the path is not looked at.
pub fn path_as_cstring(path: &str, exists: bool) -> (text: Result<Vec<u8>, ModelError>)
    requires
        exists ==> is_c_text(path),
    ensures
        match text {
            Ok(bytes) => exists && bytes@ == path.spec_bytes().push(0u8),
            Err(error) => !exists && (error matches ModelError::NotFound(p) && p@ == path@),
        },
{
    if !exists {
        Err(ModelError::NotFound(path.to_owned()))
    } else {
        let mut bytes = slice_to_vec(path.as_bytes());
        bytes.push(0u8);
        Ok(bytes)
    }
}

/// Whether `path` can be handed to [`path_as_cstring`] as the path of a file
/// that exists.
pub fn has_c_text(path: &str) -> (fits: bool)
    ensures
        fits == is_c_text(path),
{
    let bytes = path.as_bytes();
    let mut i: usize = 0;
    while i < bytes.len()
        invariant
            i <= bytes@.len(),
            bytes@ == path.spec_bytes(),
            forall|j: int| 0 <= j < i ==> bytes@[j] != 0,
        decreases bytes@.len() - i,
    {
        if bytes[i] == 0 {
            return false;
        }
        i += 1;
    }
    true
}

/// The outcome of loading the model at `path`, given whether its bytes
/// could be deserialized.
pub fn deserialized_or_error(path: &str, deserialized: bool) -> (outcome: Result<(), ModelError>)
    ensures
        match outcome {
            Ok(_) => deserialized,
            Err(error) => !deserialized && (error matches ModelError::DeserializationFailed(p)
                && p@ == path@),
        },
{
    if deserialized {
        Ok(())
    } else {
        Err(ModelError::DeserializationFailed(path.to_owned()))
    }
}

} // verus!
