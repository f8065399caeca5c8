use raytracer::frame::{pixel_index, width_for_aspect, Frame};

#[test]
fn new_frame_is_black_and_sized() {
    let f = Frame::new(4, 3);
    assert_eq!(f.width(), 4);
    assert_eq!(f.height(), 3);
    assert_eq!(f.as_bytes().len(), 36);
    assert!(f.as_bytes().iter().all(|b| *b == 0));
}

#[test]
fn empty_frame_has_no_bytes() {
    let f = Frame::new(0, 7);
    assert!(f.as_bytes().is_empty());
    let g = Frame::new(7, 0);
    assert!(g.as_bytes().is_empty());
}

#[test]
fn pixel_index_is_row_major() {
    assert_eq!(pixel_index(5, 0, 0), 0);
    assert_eq!(pixel_index(5, 4, 0), 12);
    assert_eq!(pixel_index(5, 0, 1), 15);
    assert_eq!(pixel_index(5, 2, 3), 51);
}

#[test]
fn set_pixel_writes_only_its_three_bytes() {
    let mut f = Frame::new(3, 2);
    f.set_pixel(1, 1, [10, 20, 30]);
    assert_eq!(f.pixel(1, 1), [10, 20, 30]);
    let mut expected = vec![0u8; 18];
    expected[12] = 10;
    expected[13] = 20;
    expected[14] = 30;
    assert_eq!(f.as_bytes(), &expected);
}

#[test]
fn set_pixel_overwrites() {
    let mut f = Frame::new(2, 2);
    f.set_pixel(0, 0, [1, 2, 3]);
    f.set_pixel(0, 0, [255, 254, 253]);
    assert_eq!(f.pixel(0, 0), [255, 254, 253]);
    assert_eq!(f.pixel(1, 0), [0, 0, 0]);
    f.set_pixel(1, 1, [7, 8, 9]);
    assert_eq!(f.pixel(1, 1), [7, 8, 9]);
    assert_eq!(&f.as_bytes()[9..12], &[7, 8, 9]);
}

#[test]
fn width_for_sixteen_by_nine() {
    assert_eq!(width_for_aspect(1080, 16, 9), 1920);
    assert_eq!(width_for_aspect(100, 16, 9), 177);
    assert_eq!(width_for_aspect(0, 16, 9), 0);
}
