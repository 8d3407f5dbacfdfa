use dlib_face_recognition::{ArraySizeError, FaceEncoding};

fn bits(values: &[f64]) -> Vec<u64> {
    values.iter().map(|value| value.to_bits()).collect()
}

fn numbers(encoding: &FaceEncoding) -> Vec<f64> {
    encoding.as_slice().iter().map(|bits| f64::from_bits(*bits)).collect()
}

fn distance(a: &FaceEncoding, b: &FaceEncoding) -> f64 {
    let squares: f64 = numbers(a).iter().zip(numbers(b)).map(|(x, y)| (x - y) * (x - y)).sum();
    squares.sqrt()
}

#[test]
fn encoding_encoding_test() {
    let encoding_a = FaceEncoding::new_from_scalar(0.0f64.to_bits());
    let encoding_b = FaceEncoding::new_from_scalar(1.0f64.to_bits());

    assert_eq!(encoding_a, encoding_a);
    assert_ne!(encoding_a, encoding_b);

    assert_eq!(distance(&encoding_a, &encoding_b), 128.0_f64.sqrt());
}

#[test]
fn encoding_transformation() {
    let original_array: Vec<f64> = vec![2.5; 128];

    assert_eq!(true, FaceEncoding::from_vec(&bits(&original_array)).is_ok());
}

#[test]
fn invalid_array_size() {
    let original_array: Vec<f64> = vec![2.5; 135];

    assert_eq!(true, FaceEncoding::from_vec(&bits(&original_array)).is_err());
}

#[test]
fn from_vec_keeps_the_values() {
    let original: Vec<f64> = (0..128).map(|i| i as f64 * 0.25 - 7.0).collect();
    let encoding = FaceEncoding::from_vec(&bits(&original)).unwrap();

    assert_eq!(encoding.as_slice().len(), 128);
    assert_eq!(encoding.as_ref(), bits(&original).as_slice());
    assert_eq!(encoding.as_slice(), bits(&original).as_slice());
    assert_eq!(numbers(&encoding), original);
}

#[test]
fn from_vec_refuses_other_lengths() {
    for len in [0usize, 1, 127, 129, 135, 256] {
        let values = vec![2.5f64.to_bits(); len];
        assert_eq!(FaceEncoding::from_vec(&values), Err(ArraySizeError), "{len}");
    }
}

#[test]
fn array_size_error_message() {
    assert_eq!(ArraySizeError.message(), "Invalid array size provided for from_vec.");
}

#[test]
fn new_from_scalar_fills_all_values() {
    let encoding = FaceEncoding::new_from_scalar(2.5f64.to_bits());

    assert_eq!(encoding.as_slice(), vec![2.5f64.to_bits(); 128].as_slice());
    assert_eq!(encoding, FaceEncoding::from_vec(&vec![2.5f64.to_bits(); 128]).unwrap());
}

#[test]
fn clone_keeps_the_values() {
    let original: Vec<f64> = (0..128).map(|i| (i as f64).sqrt()).collect();
    let encoding = FaceEncoding::from_vec(&bits(&original)).unwrap();

    assert_eq!(encoding.clone().as_slice(), encoding.as_slice());
}

#[test]
fn equality_is_that_of_the_numbers() {
    let zeros = FaceEncoding::new_from_scalar(0.0f64.to_bits());
    let negative_zeros = FaceEncoding::new_from_scalar((-0.0f64).to_bits());
    let nans = FaceEncoding::new_from_scalar(f64::NAN.to_bits());

    assert_eq!(zeros, negative_zeros);
    assert_ne!(nans, nans);

    let mut values = vec![1.0f64.to_bits(); 128];
    let ones = FaceEncoding::from_vec(&values).unwrap();
    values[127] = 1.0000000000000002f64.to_bits();
    let nearly_ones = FaceEncoding::from_vec(&values).unwrap();
    assert_ne!(ones, nearly_ones);
}

#[test]
fn distance_to_itself_is_zero_and_distance_is_symmetric() {
    let a = FaceEncoding::from_vec(&bits(&(0..128).map(|i| i as f64 * 0.01).collect::<Vec<_>>()))
        .unwrap();
    let b = FaceEncoding::new_from_scalar(0.25f64.to_bits());

    assert_eq!(distance(&a, &a), 0.0);
    assert_eq!(distance(&b, &b), 0.0);
    assert_eq!(distance(&a, &b), distance(&b, &a));
}

#[test]
fn constant_encodings_lie_apart_by_their_scalars() {
    let a = FaceEncoding::new_from_scalar(0.0f64.to_bits());
    let b = FaceEncoding::new_from_scalar(1.0f64.to_bits());
    let c = FaceEncoding::new_from_scalar((-2.0f64).to_bits());

    assert_eq!(distance(&a, &b), 11.313708498984761);
    assert_eq!(distance(&b, &c), 1152.0_f64.sqrt());
}
