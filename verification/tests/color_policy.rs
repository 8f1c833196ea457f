use pbar::color::get_progress_color;
use pbar::color::Band;
use pbar::color::HIGH_COLOR;
use pbar::color::HIGH_THRESHOLD;
use pbar::color::LOW_COLOR;
use pbar::color::LOW_THRESHOLD;
use pbar::color::MID_COLOR;
use pbar::number::Number;

fn number(value: f32) -> Number {
    Number::from_bits(value.to_bits())
}

/// The band as binary32 arithmetic of the machine gives it.
fn machine_band(progress: f32, scale: f32) -> Band {
    let ratio = progress / scale;
    if ratio < 0.3 {
        Band::Low
    } else if ratio < 0.7 {
        Band::Mid
    } else {
        Band::High
    }
}

fn agrees(progress: f32, scale: f32) {
    assert_eq!(
        Band::of(number(progress), number(scale)),
        machine_band(progress, scale),
        "progress {:e} ({:#x}), scale {:e} ({:#x})",
        progress,
        progress.to_bits(),
        scale,
        scale.to_bits()
    );
}

/// A few values on each side of `value`, by bit pattern.
fn neighbours(value: f32) -> Vec<f32> {
    let bits = value.to_bits();
    let mut found = Vec::new();
    for step in 0..6u32 {
        found.push(f32::from_bits(bits.wrapping_add(step)));
        found.push(f32::from_bits(bits.wrapping_sub(step)));
    }
    found
}

struct Generator(u64);

impl Generator {
    fn next(&mut self) -> u32 {
        self.0 = self.0.wrapping_mul(6364136223846793005).wrapping_add(1442695040888963407);
        (self.0 >> 32) as u32
    }
}

#[test]
fn thresholds_are_the_binary32_constants() {
    assert_eq!(LOW_THRESHOLD, 0.3f32.to_bits());
    assert_eq!(HIGH_THRESHOLD, 0.7f32.to_bits());
}

#[test]
fn half_of_the_scale_is_in_the_middle_band() {
    assert_eq!(Band::of(number(50.0), number(100.0)), Band::Mid);
    assert_eq!(get_progress_color(number(50.0), number(100.0)), "#f0ad4e");
}

#[test]
fn a_fifth_of_the_scale_is_in_the_low_band() {
    assert_eq!(Band::of(number(20.0), number(100.0)), Band::Low);
    assert_eq!(get_progress_color(number(20.0), number(100.0)), "#d9534f");
}

#[test]
fn nine_tenths_of_the_scale_is_in_the_high_band() {
    assert_eq!(Band::of(number(90.0), number(100.0)), Band::High);
    assert_eq!(get_progress_color(number(90.0), number(100.0)), "#5cb85c");
}

#[test]
fn each_band_has_its_colour() {
    assert_eq!(Band::Low.color(), LOW_COLOR);
    assert_eq!(Band::Mid.color(), MID_COLOR);
    assert_eq!(Band::High.color(), HIGH_COLOR);
    assert_eq!(LOW_COLOR, "#d9534f");
    assert_eq!(MID_COLOR, "#f0ad4e");
    assert_eq!(HIGH_COLOR, "#5cb85c");
}

#[test]
fn boundary_ratios_belong_to_the_higher_band() {
    assert_eq!(Band::of(number(0.3), number(1.0)), Band::Mid);
    assert_eq!(Band::of(number(0.7), number(1.0)), Band::High);
    assert_eq!(Band::of(number(30.0), number(100.0)), Band::Mid);
    assert_eq!(Band::of(number(70.0), number(100.0)), Band::High);
    assert_eq!(Band::of(number(3.0), number(10.0)), Band::Mid);
    assert_eq!(Band::of(number(7.0), number(10.0)), Band::High);
}

#[test]
fn values_next_to_the_thresholds_fall_where_the_machine_puts_them() {
    let below_low = f32::from_bits(LOW_THRESHOLD - 1);
    let below_high = f32::from_bits(HIGH_THRESHOLD - 1);
    assert_eq!(Band::of(number(below_low), number(1.0)), Band::Low);
    assert_eq!(Band::of(number(below_high), number(1.0)), Band::Mid);
    agrees(below_low, 1.0);
    agrees(below_high, 1.0);
}

#[test]
fn a_quotient_that_rounds_up_to_the_high_threshold_is_high() {
    // 16777212 / 23967446 is under seven tenths, and rounds to the constant.
    let progress = 16777212.0f32;
    let scale = 23967446.0f32;
    assert_eq!(progress as f64, 16777212.0);
    assert_eq!(scale as f64, 23967446.0);
    assert!((progress as f64) * 10.0 < (scale as f64) * 7.0);
    assert_eq!((progress / scale).to_bits(), HIGH_THRESHOLD);
    assert_eq!(Band::of(number(progress), number(scale)), Band::High);
}

#[test]
fn zero_scale_follows_the_sign_of_the_quotient() {
    assert_eq!(Band::of(number(50.0), number(0.0)), Band::High);
    assert_eq!(Band::of(number(-50.0), number(0.0)), Band::Low);
    assert_eq!(Band::of(number(50.0), number(-0.0)), Band::Low);
    assert_eq!(Band::of(number(-50.0), number(-0.0)), Band::High);
    assert_eq!(Band::of(number(0.0), number(0.0)), Band::High);
    assert_eq!(Band::of(number(-0.0), number(0.0)), Band::High);
}

#[test]
fn a_ratio_that_is_not_a_number_is_high() {
    assert_eq!(Band::of(number(f32::NAN), number(100.0)), Band::High);
    assert_eq!(Band::of(number(50.0), number(f32::NAN)), Band::High);
    assert_eq!(Band::of(number(f32::INFINITY), number(f32::INFINITY)), Band::High);
    assert_eq!(Band::of(number(f32::NEG_INFINITY), number(f32::INFINITY)), Band::High);
}

#[test]
fn infinite_operands_follow_the_machine() {
    assert_eq!(Band::of(number(f32::INFINITY), number(2.0)), Band::High);
    assert_eq!(Band::of(number(f32::INFINITY), number(-2.0)), Band::Low);
    assert_eq!(Band::of(number(f32::NEG_INFINITY), number(2.0)), Band::Low);
    assert_eq!(Band::of(number(f32::INFINITY), number(-0.0)), Band::Low);
    assert_eq!(Band::of(number(2.0), number(f32::INFINITY)), Band::Low);
    assert_eq!(Band::of(number(2.0), number(f32::NEG_INFINITY)), Band::Low);
}

#[test]
fn negative_ratios_are_low() {
    assert_eq!(Band::of(number(-1.0), number(100.0)), Band::Low);
    assert_eq!(Band::of(number(1.0), number(-100.0)), Band::Low);
    assert_eq!(Band::of(number(-90.0), number(-100.0)), Band::High);
    assert_eq!(Band::of(number(-0.0), number(100.0)), Band::Low);
}

#[test]
fn special_values_agree_with_the_machine() {
    let values = [
        0.0f32,
        -0.0,
        1.0,
        -1.0,
        0.3,
        0.7,
        100.0,
        f32::MIN_POSITIVE,
        f32::MAX,
        f32::MIN,
        f32::EPSILON,
        f32::INFINITY,
        f32::NEG_INFINITY,
        f32::NAN,
        f32::from_bits(1),
        f32::from_bits(0x007f_ffff),
        f32::from_bits(0x0080_0001),
        f32::from_bits(0x7f7f_ffff),
        f32::from_bits(0xffc0_0001),
        1.0e-40,
        3.0e-39,
        7.0e37,
        3.0e38,
    ];
    for progress in values {
        for scale in values {
            for p in neighbours(progress) {
                for s in neighbours(scale) {
                    agrees(p, s);
                }
            }
        }
    }
}

#[test]
fn products_of_the_thresholds_agree_with_the_machine() {
    let mut generator = Generator(7);
    for _ in 0..20000 {
        let scale = f32::from_bits(generator.next());
        if !scale.is_finite() {
            continue;
        }
        for factor in [0.3f32, 0.7, 0.29999998, 0.6999999, 0.30000004, 0.70000005] {
            for progress in neighbours(scale * factor) {
                agrees(progress, scale);
            }
        }
    }
}

#[test]
fn integer_pairs_near_the_thresholds_agree_with_the_machine() {
    let mut generator = Generator(11);
    for _ in 0..50000 {
        let scale = 8388608 + generator.next() % 8388608;
        for (numerator, denominator) in [(3u64, 10u64), (7, 10), (6, 5), (7, 5), (3, 5), (12, 5)] {
            let exact = (scale as u64 * numerator) / denominator;
            for offset in 0..3u64 {
                for progress in [exact + offset, exact.saturating_sub(offset)] {
                    if progress < 16777216 {
                        agrees(progress as f32, scale as f32);
                        agrees(progress as f32, scale as f32 * 2.0);
                        agrees(progress as f32, scale as f32 * 4.0);
                        agrees(progress as f32 * 0.5, scale as f32);
                    }
                }
            }
        }
    }
}

#[test]
fn arbitrary_bit_patterns_agree_with_the_machine() {
    let mut generator = Generator(2024);
    for _ in 0..400000 {
        let progress = f32::from_bits(generator.next());
        let scale = f32::from_bits(generator.next());
        agrees(progress, scale);
    }
}

#[test]
fn subnormal_operands_agree_with_the_machine() {
    let mut generator = Generator(99);
    for _ in 0..100000 {
        let progress = f32::from_bits(generator.next() % 0x0100_0000);
        let scale = f32::from_bits(generator.next() % 0x0100_0000);
        agrees(progress, scale);
        agrees(progress, -scale);
    }
}
