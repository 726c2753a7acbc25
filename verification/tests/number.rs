use style_rules::number::{blend, share, unit_to_byte, Share, ONE};
use style_rules::value::{Color, ColorOperation};

fn scaled(value: f32) -> u8 {
    (value * 255.0) as u8
}

#[test]
fn channels_of_plain_numbers() {
    assert_eq!(unit_to_byte(0.0f32.to_bits()), 0);
    assert_eq!(unit_to_byte(0.25f32.to_bits()), 63);
    assert_eq!(unit_to_byte(0.5f32.to_bits()), 127);
    assert_eq!(unit_to_byte(0.75f32.to_bits()), 191);
    assert_eq!(unit_to_byte(1.0f32.to_bits()), 255);
    assert_eq!(unit_to_byte(ONE), 255);
    assert_eq!(unit_to_byte(2.5f32.to_bits()), 255);
    assert_eq!(unit_to_byte((-0.5f32).to_bits()), 0);
    assert_eq!(unit_to_byte((-0.0f32).to_bits()), 0);
    assert_eq!(unit_to_byte(f32::NAN.to_bits()), 0);
    assert_eq!(unit_to_byte(f32::INFINITY.to_bits()), 255);
    assert_eq!(unit_to_byte(f32::NEG_INFINITY.to_bits()), 0);
    assert_eq!(unit_to_byte(f32::MIN_POSITIVE.to_bits()), 0);
    assert_eq!(unit_to_byte(1), 0);
}

#[test]
fn channels_agree_with_floating_point() {
    let mut bits: u32 = 0;
    loop {
        assert_eq!(unit_to_byte(bits), scaled(f32::from_bits(bits)), "bits {:#x}", bits);
        match bits.checked_add(40_009) {
            Some(next) => bits = next,
            None => break,
        }
    }
    let mut bits: u32 = 0x3A00_0000;
    while bits <= 0x3F80_0010 {
        assert_eq!(unit_to_byte(bits), scaled(f32::from_bits(bits)), "bits {:#x}", bits);
        bits += 61;
    }
    for whole in 0..=255u32 {
        let value = whole as f32 / 255.0;
        assert_eq!(unit_to_byte(value.to_bits()), scaled(value));
    }
}

#[test]
fn shares_of_numbers() {
    assert_eq!(share(0.0f32.to_bits()), Share { numerator: 0, shift: 0 });
    assert_eq!(share((-3.0f32).to_bits()), Share { numerator: 0, shift: 0 });
    assert_eq!(share(f32::NAN.to_bits()), Share { numerator: 0, shift: 0 });
    assert_eq!(share(1.0f32.to_bits()), Share { numerator: 1, shift: 0 });
    assert_eq!(share(7.0f32.to_bits()), Share { numerator: 1, shift: 0 });
    assert_eq!(share(0.5f32.to_bits()), Share { numerator: 1 << 23, shift: 24 });
    assert_eq!(share(0.75f32.to_bits()), Share { numerator: 3 << 22, shift: 24 });
    assert_eq!(share(1), Share { numerator: 1, shift: 149 });
}

#[test]
fn blends_of_channels() {
    assert_eq!(blend(0, 255, 0.5f32.to_bits()), 127);
    assert_eq!(blend(255, 255, 0.5f32.to_bits()), 255);
    assert_eq!(blend(10, 20, 0.0f32.to_bits()), 10);
    assert_eq!(blend(10, 20, 1.0f32.to_bits()), 20);
    assert_eq!(blend(10, 20, 0.25f32.to_bits()), 12);
    assert_eq!(blend(20, 10, 0.25f32.to_bits()), 17);
    assert_eq!(blend(0, 255, 0.2f32.to_bits()), 51);
    assert_eq!(blend(255, 0, 1.0e-30f32.to_bits()), 255);
    assert_eq!(blend(7, 200, (-1.0f32).to_bits()), 7);
    assert_eq!(blend(7, 200, 9.0f32.to_bits()), 200);
}

#[test]
fn blends_are_nearest() {
    let amounts = [0.0f32, 0.001, 0.1, 0.2, 0.25, 0.3333, 0.5, 0.6, 0.75, 0.9, 0.999, 1.0];
    for amount in amounts {
        for x in (0..=255u32).step_by(5) {
            for y in (0..=255u32).step_by(3) {
                let exact = x as f64 * (1.0 - amount as f64) + y as f64 * amount as f64;
                let blended = blend(x as u8, y as u8, amount.to_bits()) as f64;
                assert!(blended - exact <= 0.5 && exact - blended <= 0.5, "{} {} {}", x, y, amount);
            }
        }
    }
}

#[test]
fn mix_of_concrete_colors() {
    let black = Color::rgba(0, 0, 0, 255);
    let white = Color::rgba(255, 255, 255, 255);
    assert_eq!(Color::mix(&black, &white, 0.5f32.to_bits()), Color::rgba(127, 127, 127, 255));
    assert_eq!(Color::mix(&black, &white, 0.0f32.to_bits()), black);
    assert_eq!(Color::mix(&black, &white, 1.0f32.to_bits()), white);
    assert_eq!(Color::mix(&black, &white, 3.0f32.to_bits()), white);
}

#[test]
fn mix_of_other_colors_is_kept_for_later() {
    let custom = Color::custom(String::from("theme"), vec![String::from("accent")]);
    let white = Color::rgba(255, 255, 255, 255);
    let amount = 0.5f32.to_bits();
    assert_eq!(
        Color::mix(&custom, &white, amount),
        Color::modified(&custom, ColorOperation::mix(&white, amount))
    );
    assert_eq!(Color::mix(&Color::empty(), &white, amount), Color::empty());
    assert_eq!(Color::modified(&Color::empty(), ColorOperation::add(&white)), Color::empty());
}
