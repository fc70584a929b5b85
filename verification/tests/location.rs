use face_center::geometry::{FrameSize, Rectangle};
use face_center::location::{
    displacement_between, normalized_center, ratio_difference, Displacement, Location, Ratio,
    WideRatio,
};

const HALF: Ratio = Ratio { numerator: 1, denominator: 2 };

fn quotient(ratio: &Ratio) -> f32 {
    ratio.numerator as f32 / ratio.denominator as f32
}

#[test]
fn middle_is_one_half_along_both_axes() {
    assert_eq!(Location::middle(), Location { x: HALF, y: HALF });
    assert_eq!(quotient(&Location::middle().x), 0.5);
    assert_eq!(quotient(&Location::middle().y), 0.5);
}

#[test]
fn ratio_difference_cross_multiplies() {
    let a = Ratio { numerator: 3, denominator: 4 };
    let b = Ratio { numerator: 2, denominator: 3 };
    assert_eq!(ratio_difference(&a, &b), WideRatio { numerator: 1, denominator: 12 });
    assert_eq!(ratio_difference(&b, &a), WideRatio { numerator: -1, denominator: 12 });
}

#[test]
fn ratio_difference_keeps_a_zero_denominator() {
    let undefined = Ratio { numerator: 7, denominator: 0 };
    assert_eq!(ratio_difference(&undefined, &HALF), WideRatio { numerator: 14, denominator: 0 });
    assert_eq!(ratio_difference(&HALF, &undefined), WideRatio { numerator: -14, denominator: 0 });
}

#[test]
fn ratio_difference_does_not_wrap_at_the_extremes() {
    let low = Ratio { numerator: i64::MIN, denominator: u32::MAX };
    let high = Ratio { numerator: i64::MAX, denominator: u32::MAX };
    let difference = ratio_difference(&high, &low);
    let den = i128::from(u32::MAX);
    assert_eq!(difference.numerator, i128::from(i64::MAX) * den - i128::from(i64::MIN) * den);
    assert_eq!(difference.denominator, u64::from(u32::MAX) * u64::from(u32::MAX));
}

#[test]
fn displacement_between_is_target_minus_origin() {
    let origin = Location {
        x: Ratio { numerator: 1, denominator: 2 },
        y: Ratio { numerator: 1, denominator: 3 },
    };
    let target = Location {
        x: Ratio { numerator: 3, denominator: 5 },
        y: Ratio { numerator: 1, denominator: 6 },
    };
    assert_eq!(
        displacement_between(&origin, &target),
        Displacement {
            x: WideRatio { numerator: 1, denominator: 10 },
            y: WideRatio { numerator: -3, denominator: 18 },
        }
    );
}

#[test]
fn normalized_center_is_center_over_frame_extent() {
    let frame = FrameSize { width: 640, height: 480 };
    let rect = Rectangle { x: 270, y: 190, width: 100, height: 100 };
    let location = normalized_center(&frame, &rect);
    assert_eq!(location.x, Ratio { numerator: 320, denominator: 640 });
    assert_eq!(location.y, Ratio { numerator: 240, denominator: 480 });
    assert_eq!(quotient(&location.x), 0.5);
    assert_eq!(quotient(&location.y), 0.5);
}

#[test]
fn normalized_center_on_an_empty_frame_keeps_the_zero_denominator() {
    let frame = FrameSize { width: 0, height: 0 };
    let rect = Rectangle { x: 3, y: 4, width: 2, height: 2 };
    let location = normalized_center(&frame, &rect);
    assert_eq!(location.x, Ratio { numerator: 4, denominator: 0 });
    assert_eq!(location.y, Ratio { numerator: 5, denominator: 0 });
}
