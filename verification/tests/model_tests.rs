use dlib_face_recognition::base::{
    deserialized_or_error, has_c_text, path_as_cstring, ModelError,
};
use dlib_face_recognition::embed::{download_path, path_for_file, ModelFile};
use dlib_face_recognition::EncodePass;

#[test]
fn model_file_names() {
    assert_eq!(ModelFile::FaceDetectorCnn.file_name(), "mmod_human_face_detector.dat");
    assert_eq!(
        ModelFile::FaceEncoderNetwork.file_name(),
        "dlib_face_recognition_resnet_model_v1.dat"
    );
    assert_eq!(ModelFile::LandmarkPredictor.file_name(), "shape_predictor_68_face_landmarks.dat");
}

#[test]
fn model_download_addresses() {
    assert_eq!(
        ModelFile::FaceDetectorCnn.download_url(),
        "http://dlib.net/files/mmod_human_face_detector.dat.bz2"
    );
    assert_eq!(
        ModelFile::FaceEncoderNetwork.download_url(),
        "http://dlib.net/files/dlib_face_recognition_resnet_model_v1.dat.bz2"
    );
    assert_eq!(
        ModelFile::LandmarkPredictor.download_url(),
        "http://dlib.net/files/shape_predictor_68_face_landmarks.dat.bz2"
    );
}

#[test]
fn model_files_are_kept_below_the_root() {
    let separator = std::path::MAIN_SEPARATOR;

    assert_eq!(download_path("models"), format!("models{separator}files"));
    assert_eq!(download_path(""), "files");
    assert_eq!(
        path_for_file("models", &ModelFile::LandmarkPredictor),
        format!("models{separator}files{separator}shape_predictor_68_face_landmarks.dat")
    );
    assert_eq!(
        path_for_file("", &ModelFile::FaceDetectorCnn),
        format!("files{separator}mmod_human_face_detector.dat")
    );
}

#[test]
fn path_of_a_missing_file_is_not_found() {
    let outcome = path_as_cstring("models/none.dat", false);

    assert_eq!(outcome, Err(ModelError::NotFound("models/none.dat".to_string())));
    assert_eq!(outcome.unwrap_err().message(), "File not found: 'models/none.dat'");
}

#[test]
fn path_of_a_file_ends_in_a_zero_byte() {
    assert_eq!(path_as_cstring("a/b.dat", true), Ok(b"a/b.dat\0".to_vec()));
    assert_eq!(path_as_cstring("", true), Ok(vec![0]));
    assert_eq!(
        path_as_cstring("bilder/größe.dat", true),
        Ok("bilder/größe.dat\0".as_bytes().to_vec())
    );
}

#[test]
fn text_with_a_zero_byte_is_no_c_text() {
    assert!(has_c_text("models/shape.dat"));
    assert!(has_c_text(""));
    assert!(!has_c_text("models\0shape.dat"));
    assert!(!has_c_text("\0"));
}

#[test]
fn failed_deserialization_is_reported_with_the_path() {
    assert_eq!(deserialized_or_error("m.dat", true), Ok(()));

    let outcome = deserialized_or_error("m.dat", false);
    assert_eq!(outcome, Err(ModelError::DeserializationFailed("m.dat".to_string())));

    let error = outcome.unwrap_err();
    assert_eq!(error.path(), "m.dat");
    assert_eq!(error.message(), "Failed to deserialize 'm.dat'");
}

#[test]
fn jitter_count_decides_the_pass() {
    assert_eq!(EncodePass::from_jitters(0), EncodePass::Batch);
    assert_eq!(EncodePass::from_jitters(1), EncodePass::Batch);
    assert_eq!(EncodePass::from_jitters(2), EncodePass::Jittered { variants: 2 });
    assert_eq!(EncodePass::from_jitters(100), EncodePass::Jittered { variants: 100 });
}
