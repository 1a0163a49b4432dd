//! Single-precision numbers, carried by their bits.

use voicestudio::single::Single;

fn single(n: f32) -> Single {
    Single { bits: n.to_bits() }
}

const SAMPLES: [f32; 34] = [
    0.0,
    -0.0,
    0.02,
    0.049,
    0.05,
    0.25,
    0.35,
    0.5,
    0.75,
    0.95,
    0.99,
    1.0,
    1.5,
    2.5,
    3.5,
    6.0,
    14.5,
    15.0,
    17.6,
    59.999,
    60.0,
    163.2,
    1_000_000.5,
    8_388_607.5,
    8_388_608.0,
    16_777_216.0,
    4_294_967_040.0,
    4_294_967_296.0,
    1e30,
    f32::MAX,
    f32::MIN_POSITIVE,
    -1.5,
    f32::INFINITY,
    f32::NEG_INFINITY,
];

#[test]
fn whole_seconds_are_cut_off_and_not_rounded() {
    for n in SAMPLES {
        assert_eq!(single(n).whole(), n as u32, "{n}");
    }
    assert_eq!(single(f32::NAN).whole(), 0);
    assert_eq!(single(f32::from_bits(1)).whole(), 0);
}

#[test]
fn numbers_print_without_decimals() {
    for n in SAMPLES {
        assert_eq!(single(n).rounded(), format!("{n:.0}"), "{n}");
    }
    assert_eq!(single(f32::NAN).rounded(), "NaN");
}

#[test]
fn numbers_print_with_one_decimal() {
    for n in SAMPLES {
        assert_eq!(single(n).tenths(), format!("{n:.1}"), "{n}");
    }
    assert_eq!(single(f32::NAN).tenths(), "NaN");
}

#[test]
fn printing_agrees_all_the_way_up() {
    let mut bits: u32 = 1;
    while bits < 0x7F80_0000 {
        let n = f32::from_bits(bits);
        assert_eq!(single(n).rounded(), format!("{n:.0}"), "{bits:#x}");
        assert_eq!(single(n).tenths(), format!("{n:.1}"), "{bits:#x}");
        assert_eq!(single(n).whole(), n as u32, "{bits:#x}");
        bits += 200_003;
    }
}

#[test]
fn numbers_compare_as_numbers_do() {
    for a in SAMPLES {
        for b in SAMPLES {
            assert_eq!(single(a).less(single(b)), a < b, "{a} < {b}");
        }
        assert_eq!(single(a).is_positive(), a > 0.0, "{a}");
        assert!(!single(a).less(single(f32::NAN)));
        assert!(!single(f32::NAN).less(single(a)));
    }
    assert!(!single(f32::NAN).is_positive());
}
