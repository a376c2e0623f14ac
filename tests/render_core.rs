use homados::dispatch::{Curve, Direction, SoundType, WindowType};
use homados::error::RenderError;
use homados::render::{clip_code, clip_codes, full_scale, plan_render, Format, RenderPlan};
use homados::shape::in_first_half;

fn format(sample_rate: u32, bits_per_sample: u16, channels: u16) -> Format {
    Format { sample_rate, bits_per_sample, channels }
}

#[test]
fn full_scale_of_supported_depths() {
    assert_eq!(full_scale(8), 127);
    assert_eq!(full_scale(16), 32767);
    assert_eq!(full_scale(24), 8388607);
    assert_eq!(full_scale(32), 2147483647);
}

#[test]
fn full_scale_of_small_depths() {
    assert_eq!(full_scale(2), 1);
    assert_eq!(full_scale(3), 3);
    assert_eq!(full_scale(12), 2047);
}

#[test]
fn clip_above_full_scale_gives_full_scale() {
    let b = full_scale(16);
    assert_eq!(clip_code(32768, b), 32767);
    assert_eq!(clip_code(100000, b), 32767);
    assert_eq!(clip_code(i64::MAX, b), 32767);
}

#[test]
fn clip_below_negative_full_scale_gives_negative_full_scale() {
    let b = full_scale(16);
    assert_eq!(clip_code(-32768, b), -32767);
    assert_eq!(clip_code(-100000, b), -32767);
    assert_eq!(clip_code(i64::MIN, b), -32767);
}

#[test]
fn clip_keeps_codes_within_range() {
    let b = full_scale(24);
    assert_eq!(clip_code(0, b), 0);
    assert_eq!(clip_code(8388607, b), 8388607);
    assert_eq!(clip_code(-8388607, b), -8388607);
    assert_eq!(clip_code(-12345, b), -12345);
}

#[test]
fn clip_at_thirty_two_bits() {
    let b = full_scale(32);
    assert_eq!(clip_code(2147483648, b), 2147483647);
    assert_eq!(clip_code(-2147483648, b), -2147483647);
    assert_eq!(clip_code(-2147483647, b), -2147483647);
}

#[test]
fn clip_whole_buffer_in_order() {
    let out = clip_codes(&vec![0, 200, -200, 127, -127, 5], full_scale(8));
    assert_eq!(out, vec![0, 127, -127, 127, -127, 5]);
    assert_eq!(clip_codes(&vec![], 127), Vec::<i32>::new());
}

#[test]
fn format_checks() {
    for bits in [8u16, 16, 24, 32] {
        assert_eq!(format(48000, bits, 1).check(), Ok(()));
    }
    assert_eq!(format(44100, 16, 2).check(), Ok(()));
    assert_eq!(format(0, 16, 1).check(), Err(RenderError::UnsupportedFormat));
    assert_eq!(format(48000, 16, 0).check(), Err(RenderError::UnsupportedFormat));
    for bits in [0u16, 1, 2, 12, 20, 33, 64] {
        assert_eq!(format(48000, bits, 1).check(), Err(RenderError::UnsupportedFormat));
    }
}

#[test]
fn plan_checks_sound_before_window_before_format() {
    assert_eq!(plan_render("nope", "nope", format(0, 1, 0), 10), Err(RenderError::UnrecognizedSound));
    assert_eq!(plan_render("sine", "nope", format(0, 1, 0), 10), Err(RenderError::UnrecognizedWindow));
    assert_eq!(plan_render("sine", "def", format(0, 16, 1), 10), Err(RenderError::UnsupportedFormat));
}

#[test]
fn sine_linear_out_render_plan() {
    let plan = plan_render("sine", "linear_out", format(48000, 24, 1), 48000);
    assert_eq!(
        plan,
        Ok(RenderPlan {
            sound: SoundType::Sine,
            window: WindowType::Shaped { curve: Curve::Linear, direction: Direction::Out },
            format: format(48000, 24, 1),
            total_samples: 48000,
            full_scale: 8388607,
        })
    );
    // the last sample index is the window's far endpoint
    assert!(!in_first_half(47999, 47999));
    assert_eq!(clip_code(0, 8388607), 0);
}

#[test]
fn plan_with_default_configuration() {
    let plan = plan_render("white", "def", format(48000, 24, 1), 480000).unwrap();
    assert_eq!(plan.sound, SoundType::WhiteUniform);
    assert_eq!(plan.window, WindowType::Flat);
    assert_eq!(plan.full_scale, 8388607);
    assert_eq!(plan.total_samples, 480000);
}

#[test]
fn plan_with_zero_samples() {
    let plan = plan_render("pink", "sc3_io", format(8000, 8, 2), 0).unwrap();
    assert_eq!(plan.sound, SoundType::PinkEcon);
    assert_eq!(plan.window, WindowType::Shaped { curve: Curve::Sc3, direction: Direction::InOut });
    assert_eq!(plan.full_scale, 127);
    assert_eq!(plan.total_samples, 0);
}

#[test]
fn clipping_law_on_composed_samples() {
    let b = full_scale(16);
    let bf = b as f64;
    let cases: [(f64, i32); 9] = [
        (bf + 0.5, b),
        (bf * 2.0, b),
        (-(bf + 0.5), -b),
        (-3.0 * bf, -b),
        (f64::INFINITY, b),
        (f64::NEG_INFINITY, -b),
        (f64::NAN, 0),
        (bf * 0.5, 16383),
        (-0.9, 0),
    ];
    for (sample, expected) in cases {
        assert_eq!(clip_code(sample as i64, b), expected, "{}", sample);
    }
}
