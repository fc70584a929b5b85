use face_center::geometry::{center_of, distance_squared, FrameSize, Rectangle};

#[test]
fn center_is_corner_plus_half_extent() {
    let rect = Rectangle { x: 270, y: 190, width: 100, height: 100 };
    assert_eq!(center_of(&rect), (320, 240));
}

#[test]
fn center_rounds_half_extent_down() {
    let rect = Rectangle { x: 10, y: 20, width: 101, height: 7 };
    assert_eq!(center_of(&rect), (60, 23));
}

#[test]
fn center_of_degenerate_rectangle_is_its_corner() {
    let rect = Rectangle { x: -5, y: 9, width: 0, height: 1 };
    assert_eq!(center_of(&rect), (-5, 9));
}

#[test]
fn center_of_rectangle_left_of_the_frame() {
    let rect = Rectangle { x: -300, y: -40, width: 100, height: 20 };
    assert_eq!(center_of(&rect), (-250, -30));
}

#[test]
fn center_does_not_wrap_at_the_edge_of_32_bits() {
    let rect = Rectangle { x: i32::MAX, y: i32::MIN, width: u32::MAX, height: u32::MAX };
    assert_eq!(center_of(&rect), (2147483647 + 2147483647, -2147483648 + 2147483647));
}

#[test]
fn distance_squared_of_corner_candidate() {
    let frame = FrameSize { width: 640, height: 480 };
    let rect = Rectangle { x: 0, y: 0, width: 100, height: 100 };
    assert_eq!(distance_squared(&frame, &rect), 109000);
}

#[test]
fn distance_squared_of_centered_candidate_is_zero() {
    let frame = FrameSize { width: 640, height: 480 };
    let rect = Rectangle { x: 270, y: 190, width: 100, height: 100 };
    assert_eq!(distance_squared(&frame, &rect), 0);
}

#[test]
fn distance_squared_is_the_same_on_either_side() {
    let frame = FrameSize { width: 640, height: 480 };
    let left = Rectangle { x: 300, y: 240, width: 0, height: 0 };
    let right = Rectangle { x: 340, y: 240, width: 0, height: 0 };
    assert_eq!(distance_squared(&frame, &left), 400);
    assert_eq!(distance_squared(&frame, &right), 400);
}

#[test]
fn distance_squared_halves_odd_frame_extent_downwards() {
    let frame = FrameSize { width: 641, height: 481 };
    let rect = Rectangle { x: 323, y: 244, width: 0, height: 0 };
    assert_eq!(distance_squared(&frame, &rect), 9 + 16);
}

#[test]
fn distance_squared_exceeds_64_bits_without_wrapping() {
    let frame = FrameSize { width: u32::MAX, height: u32::MAX };
    let rect = Rectangle { x: i32::MIN, y: i32::MIN, width: 0, height: 0 };
    // Each axis is 2^32 - 1 apart.
    let axis: u128 = 4294967295;
    assert_eq!(distance_squared(&frame, &rect), 2 * axis * axis);
    assert!(distance_squared(&frame, &rect) > u128::from(u64::MAX));
}

#[test]
fn rectangles_compare_by_their_fields() {
    let a = Rectangle { x: 1, y: 2, width: 3, height: 4 };
    let b = Rectangle { x: 1, y: 2, width: 3, height: 4 };
    let c = Rectangle { x: 1, y: 2, width: 3, height: 5 };
    assert_eq!(a, b);
    assert_ne!(a, c);
}
