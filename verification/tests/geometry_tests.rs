use dlib_face_recognition::{Point, Rectangle};

#[test]
fn test_point() {
    let point = Point::new(42, -1000);

    assert_eq!(point, Point([42, -1000]));
    assert_eq!(point.x(), 42);
    assert_eq!(point.y(), -1000);
    assert_eq!(*point, [42, -1000]);
    assert_eq!(point[1], -1000);
    assert_eq!(point.as_ref(), &[42, -1000]);
}

#[test]
fn rectangle_extents() {
    let rect = Rectangle { left: 305, top: 113, right: 520, bottom: 328 };

    assert_eq!(rect.width(), 215);
    assert_eq!(rect.height(), 215);
    assert_eq!(rect.size(), Point::new(215, 215));
    assert_eq!(rect.checked_width(), Some(215));
    assert_eq!(rect.checked_height(), Some(215));
}

#[test]
fn rectangle_extents_beyond_i64() {
    let rect = Rectangle { left: i64::MIN, top: 1, right: 1, bottom: i64::MIN };

    assert_eq!(rect.checked_width(), None);
    assert_eq!(rect.checked_height(), None);
}

#[test]
fn default_rectangle_is_empty() {
    let rect = Rectangle::default();

    assert_eq!(rect, Rectangle { left: 0, top: 0, right: 0, bottom: 0 });
    assert_eq!(rect.size(), Point::default());
}
