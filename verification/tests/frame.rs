use colorant::frame::{bgr_to_rgb, Frame, MAX_DIMENSION};

#[test]
fn from_raw_takes_a_buffer_of_the_right_length() {
    let frame = Frame::from_raw(2, 3, vec![0u8; 18]).expect("18 bytes fit 2 by 3");
    assert_eq!(frame.width(), 2);
    assert_eq!(frame.height(), 3);
    assert_eq!(frame.as_bytes().len(), 18);
}

#[test]
fn from_raw_refuses_any_other_length() {
    assert!(Frame::from_raw(2, 3, vec![0u8; 17]).is_none());
    assert!(Frame::from_raw(2, 3, vec![0u8; 19]).is_none());
    assert!(Frame::from_raw(2, 3, Vec::new()).is_none());
    assert!(Frame::from_raw(1, 1, vec![0u8; 4]).is_none());
}

#[test]
fn from_raw_takes_an_empty_frame() {
    let frame = Frame::from_raw(0, 5, Vec::new()).expect("no pixels, no bytes");
    assert_eq!(frame.width(), 0);
    assert_eq!(frame.height(), 5);
    assert!(Frame::from_raw(0, 0, Vec::new()).is_some());
}

#[test]
fn from_raw_refuses_a_side_beyond_the_limit() {
    assert_eq!(MAX_DIMENSION, 2147483647);
    assert!(Frame::from_raw(MAX_DIMENSION + 1, 0, Vec::new()).is_none());
    assert!(Frame::from_raw(0, MAX_DIMENSION + 1, Vec::new()).is_none());
    assert!(Frame::from_raw(MAX_DIMENSION, 0, Vec::new()).is_some());
}

#[test]
fn pixels_are_read_row_by_row() {
    let data: Vec<u8> = (0u8..18).collect();
    let frame = Frame::from_raw(3, 2, data).unwrap();
    assert_eq!(frame.get_pixel(0, 0), (0, 1, 2));
    assert_eq!(frame.get_pixel(2, 0), (6, 7, 8));
    assert_eq!(frame.get_pixel(0, 1), (9, 10, 11));
    assert_eq!(frame.get_pixel(2, 1), (15, 16, 17));
    assert_eq!(frame.pixel(4), (12, 13, 14));
}

#[test]
fn bgr_to_rgb_exchanges_the_outer_channels() {
    assert_eq!(bgr_to_rgb(&vec![1, 2, 3, 4, 5, 6]), vec![3, 2, 1, 6, 5, 4]);
    assert_eq!(bgr_to_rgb(&Vec::new()), Vec::<u8>::new());
}

#[test]
fn bgr_to_rgb_keeps_bytes_that_make_no_whole_pixel() {
    assert_eq!(bgr_to_rgb(&vec![1, 2, 3, 4]), vec![3, 2, 1, 4]);
    assert_eq!(bgr_to_rgb(&vec![1, 2, 3, 4, 5]), vec![3, 2, 1, 4, 5]);
    assert_eq!(bgr_to_rgb(&vec![9]), vec![9]);
}

#[test]
fn bgr_to_rgb_twice_is_the_identity() {
    let data: Vec<u8> = (0u8..200).collect();
    assert_eq!(bgr_to_rgb(&bgr_to_rgb(&data)), data);
}

#[test]
fn from_bgr_stores_red_first() {
    let frame = Frame::from_bgr(1, 2, &vec![10, 20, 30, 40, 50, 60]).unwrap();
    assert_eq!(frame.get_pixel(0, 0), (30, 20, 10));
    assert_eq!(frame.get_pixel(0, 1), (60, 50, 40));
    assert!(Frame::from_bgr(1, 2, &vec![10, 20, 30]).is_none());
}

#[test]
fn a_clone_is_equal_and_independent() {
    let frame = Frame::from_raw(1, 1, vec![7, 8, 9]).unwrap();
    let copy = frame.clone();
    drop(frame);
    assert_eq!(copy.width(), 1);
    assert_eq!(copy.height(), 1);
    assert_eq!(copy.as_bytes(), &vec![7, 8, 9]);
}
