//! The model files and where they are kept.

use vstd::prelude::*;
use vstd::string::StringExecFns;

verus! {

/// The models that a face identity pipeline loads.
#[derive(Copy, Clone, Debug, PartialEq, Eq, Structural)]
pub enum ModelFile {
    FaceDetectorCnn,
    FaceEncoderNetwork,
    LandmarkPredictor,
}

/// What `std::path::Path::join` makes of a path and a part adjoined to it,
/// both as text.
pub uninterp spec fn joined_path(base: Seq<char>, part: Seq<char>) -> Seq<char>;

/// `std::path::Path::join`: the path `base` with `part` adjoined. The result
/// depends on the two texts alone, and is text again because they are.
#[verifier::external_body]
fn join_path(base: &str, part: &str) -> (joined: String)
    ensures
        joined@ == joined_path(base@, part@),
{
    std::path::Path::new(base).join(part).to_string_lossy().into_owned()
}

impl ModelFile {
    /// The name of the file that holds the model.
    pub open spec fn spec_file_name(&self) -> Seq<char> {
        match self {
            ModelFile::FaceDetectorCnn => "mmod_human_face_detector.dat"@,
            ModelFile::FaceEncoderNetwork => "dlib_face_recognition_resnet_model_v1.dat"@,
            ModelFile::LandmarkPredictor => "shape_predictor_68_face_landmarks.dat"@,
        }
    }

    /// The address from which the compressed model is fetched.
    pub open spec fn spec_download_url(&self) -> Seq<char> {
        "http://dlib.net/files/"@ + self.spec_file_name() + ".bz2"@
    }

    /// The name of the file that holds the model.
    pub fn file_name(&self) -> (name: &'static str)
        ensures
            name@ == self.spec_file_name(),
    {
        match self {
            ModelFile::FaceDetectorCnn => "mmod_human_face_detector.dat",
            ModelFile::FaceEncoderNetwork => "dlib_face_recognition_resnet_model_v1.dat",
            ModelFile::LandmarkPredictor => "shape_predictor_68_face_landmarks.dat",
        }
    }

    /// The address from which the model is fetched, compressed with bzip2.
    pub fn download_url(&self) -> (url: String)
        ensures
            url@ == self.spec_download_url(),
    {
        let mut url = "http://dlib.net/files/".to_owned();
        url.append(self.file_name());
        url.append(".bz2");
        url
    }
}

/// The directory below `root` in which model files are kept.
pub fn download_path(root: &str) -> (directory: String)
    ensures
        directory@ == joined_path(root@, "files"@),
{
    join_path(root, "files")
}

/// The path below `root` of the file that holds a model.
pub fn path_for_file(root: &str, filename: &ModelFile) -> (path: String)
    ensures
        path@ == joined_path(joined_path(root@, "files"@), filename.spec_file_name()),
{
    let directory = download_path(root);
    join_path(directory.as_str(), filename.file_name())
}

} // verus!
