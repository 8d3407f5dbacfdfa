use dlib_face_recognition::pipeline::{encode_faces, identify, predict_landmarks};
use dlib_face_recognition::{
    FaceComparer, FaceDetectorTrait, FaceEncoderTrait, FaceEncoding, FaceEncodings, FaceLandmarks,
    FaceLocations, ImageMatrix, LandmarkPredictorTrait, Point, Rectangle,
};

/// Reports the rectangles it was made with.
struct FixedDetector {
    faces: Vec<Rectangle>,
}

impl FaceDetectorTrait for FixedDetector {
    fn face_locations(&self, _image: &ImageMatrix) -> FaceLocations {
        FaceLocations::new(self.faces.clone())
    }
}

/// Places its landmarks along the top edge of the rectangle.
struct EdgePredictor {
    count: usize,
}

impl LandmarkPredictorTrait for EdgePredictor {
    fn face_landmarks(&self, _image: &ImageMatrix, rect: &Rectangle) -> FaceLandmarks {
        FaceLandmarks::new((0..self.count).map(|i| Point::new(rect.left + i as i64, rect.top)).collect())
    }
}

/// Encodes a face as the constant of its first landmark's `x`.
struct CornerEncoder;

impl FaceEncoderTrait for CornerEncoder {
    fn get_face_encodings(
        &self,
        _image: &ImageMatrix,
        landmarks: &[FaceLandmarks],
        _num_jitters: u32,
    ) -> FaceEncodings {
        FaceEncodings::new(
            landmarks
                .iter()
                .map(|face| FaceEncoding::new_from_scalar((face[0].x() as f64).to_bits()))
                .collect(),
        )
    }
}

fn euclidean(a: &FaceEncoding, b: &FaceEncoding) -> u64 {
    let mut squares = 0.0;
    for (x, y) in a.as_slice().iter().zip(b.as_slice()) {
        let difference = f64::from_bits(*x) - f64::from_bits(*y);
        squares += difference * difference;
    }
    squares.sqrt().to_bits()
}

fn image() -> ImageMatrix {
    ImageMatrix::new(4, 4, &[0u8; 48]).unwrap()
}

#[test]
fn test_default_image() {
    let matrix = ImageMatrix::default();
    let face_det = FixedDetector { faces: vec![] };

    let locations = face_det.face_locations(&matrix);

    assert!(locations.is_empty());
    assert_eq!(locations.len(), 0);
    assert_eq!(locations.get(0), None);
}

#[test]
fn one_face_gives_one_rectangle_and_one_encoding() {
    let face = Rectangle { left: 305, top: 113, right: 520, bottom: 328 };
    let detector = FixedDetector { faces: vec![face] };
    let predictor = EdgePredictor { count: 68 };

    let locations = detector.face_locations(&image());
    assert_eq!(locations.len(), 1);
    assert_eq!(locations[0], face);

    let landmarks = predict_landmarks(&predictor, &image(), &locations);
    assert_eq!(landmarks.len(), 1);
    assert_eq!(landmarks[0].len(), 68);

    let (found, encodings) = encode_faces(&detector, &predictor, &CornerEncoder, &image(), 0);
    assert_eq!(found.as_slice(), &[face]);
    assert_eq!(encodings.len(), 1);
    assert_eq!(encodings[0].as_slice().len(), 128);
    assert_eq!(encodings[0], FaceEncoding::new_from_scalar(305.0f64.to_bits()));
}

#[test]
fn faces_keep_the_order_of_detection() {
    let faces = vec![
        Rectangle { left: 7, top: 0, right: 9, bottom: 2 },
        Rectangle { left: 1, top: 0, right: 3, bottom: 2 },
        Rectangle { left: 4, top: 0, right: 6, bottom: 2 },
    ];
    let detector = FixedDetector { faces: faces.clone() };
    let predictor = EdgePredictor { count: 5 };

    let (found, encodings) = encode_faces(&detector, &predictor, &CornerEncoder, &image(), 3);

    assert_eq!(found.as_slice(), faces.as_slice());
    assert_eq!(encodings.len(), 3);
    for (face, encoding) in faces.iter().zip(encodings.iter()) {
        assert_eq!(*encoding, FaceEncoding::new_from_scalar((face.left as f64).to_bits()));
    }
}

#[test]
fn image_without_faces_gives_nothing() {
    let detector = FixedDetector { faces: vec![] };
    let predictor = EdgePredictor { count: 68 };

    let (found, encodings) =
        encode_faces(&detector, &predictor, &CornerEncoder, &ImageMatrix::default(), 0);

    assert!(found.is_empty());
    assert!(encodings.is_empty());
    assert!(identify(&FaceComparer::new(), &encodings, &euclidean).is_empty());
}

#[test]
fn every_encoding_gets_its_answer() {
    let mut gallery = FaceComparer::new();
    gallery.insert("one".to_string(), FaceEncoding::new_from_scalar(1.0f64.to_bits()));
    gallery.insert("four".to_string(), FaceEncoding::new_from_scalar(4.0f64.to_bits()));

    let encodings = FaceEncodings::new(vec![
        FaceEncoding::new_from_scalar(4.01f64.to_bits()),
        FaceEncoding::new_from_scalar(2.5f64.to_bits()),
        FaceEncoding::new_from_scalar(1.0f64.to_bits()),
    ]);

    assert_eq!(identify(&gallery, &encodings, &euclidean), vec![Some(1), None, Some(0)]);
}
