use colorant::color::ColorRange;
use colorant::frame::Frame;
use colorant::locator::locate;

const PURPLE: (u8, u8, u8) = (200, 50, 220);

fn frame_with(width: u32, height: u32, lit: &[(u32, u32)]) -> Frame {
    let mut data = vec![0u8; (width * height * 3) as usize];
    for &(x, y) in lit {
        let at = ((y * width + x) * 3) as usize;
        data[at] = PURPLE.0;
        data[at + 1] = PURPLE.1;
        data[at + 2] = PURPLE.2;
    }
    Frame::from_raw(width, height, data).unwrap()
}

#[test]
fn no_matching_pixel_gives_none() {
    let frame = frame_with(20, 10, &[]);
    assert_eq!(locate(&frame, ColorRange::default()), None);
}

#[test]
fn an_empty_frame_gives_none() {
    let frame = Frame::from_raw(0, 0, Vec::new()).unwrap();
    assert_eq!(locate(&frame, ColorRange::default()), None);
    let flat = Frame::from_raw(7, 0, Vec::new()).unwrap();
    assert_eq!(locate(&flat, ColorRange::default()), None);
}

#[test]
fn a_match_at_the_origin_is_some_origin() {
    let frame = frame_with(4, 4, &[(0, 0)]);
    assert_eq!(locate(&frame, ColorRange::default()), Some((0, 0)));
}

#[test]
fn a_single_match_is_returned_exactly() {
    let mut y = 0;
    while y < 5 {
        let mut x = 0;
        while x < 7 {
            let frame = frame_with(7, 5, &[(x, y)]);
            assert_eq!(locate(&frame, ColorRange::default()), Some((x as i32, y as i32)));
            x += 1;
        }
        y += 1;
    }
}

#[test]
fn the_mean_is_rounded_down() {
    let frame = frame_with(10, 10, &[(0, 0), (1, 3)]);
    assert_eq!(locate(&frame, ColorRange::default()), Some((0, 1)));
    let three = frame_with(10, 10, &[(1, 1), (2, 2), (2, 9)]);
    // columns 5 / 3, rows 12 / 3
    assert_eq!(locate(&three, ColorRange::default()), Some((1, 4)));
}

#[test]
fn a_solid_block_is_found_at_its_middle() {
    let mut lit = Vec::new();
    for y in 33..43 {
        for x in 33..43 {
            lit.push((x, y));
        }
    }
    let frame = frame_with(75, 75, &lit);
    assert_eq!(locate(&frame, ColorRange::default()), Some((37, 37)));
}

#[test]
fn a_pixel_on_the_bound_counts() {
    // (200, 50, 220) converts to (146, 197, 220)
    let frame = frame_with(3, 3, &[(2, 1)]);
    let tight = ColorRange::new([146, 197, 220], [146, 197, 220]);
    assert_eq!(locate(&frame, tight), Some((2, 1)));
    let above = ColorRange::new([147, 197, 220], [160, 197, 220]);
    assert_eq!(locate(&frame, above), None);
    let below = ColorRange::new([140, 197, 220], [145, 197, 220]);
    assert_eq!(locate(&frame, below), None);
}

#[test]
fn black_matches_a_range_that_holds_black() {
    let frame = frame_with(2, 2, &[]);
    let dark = ColorRange::new([0, 0, 0], [0, 0, 0]);
    // all four pixels: columns 0 + 1 + 0 + 1, rows 0 + 0 + 1 + 1
    assert_eq!(locate(&frame, dark), Some((0, 0)));
    let wide = Frame::from_raw(3, 1, vec![0u8; 9]).unwrap();
    assert_eq!(locate(&wide, dark), Some((1, 0)));
}
