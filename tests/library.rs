use raytracer::integrator::{Bounces, Step, Surface, Terminal};
use raytracer::nums::clamp;
use raytracer::ppm::{pixel_line, ppm_header, push_decimal};
use raytracer::render::{ConfigError, RenderConfig};

fn run_path(depth: i64, found: &[Surface]) -> (Step, usize) {
    let mut path = Bounces::new(depth);
    let mut traced = 0;
    while path.next() == Step::Trace {
        path.record(found[traced]);
        traced += 1;
    }
    (path.next(), traced)
}

#[test]
fn clamp_integers() {
    assert_eq!(clamp(5, 0, 10), 5);
    assert_eq!(clamp(-3, 0, 10), 0);
    assert_eq!(clamp(12, 0, 10), 10);
    assert_eq!(clamp(0, 0, 10), 0);
    assert_eq!(clamp(10, 0, 10), 10);
}

#[test]
fn clamp_floats() {
    assert_eq!(clamp(1.2_f64, 0.0, 0.999), 0.999);
    assert_eq!(clamp(-0.5_f64, 0.0, 0.999), 0.0);
    assert_eq!(clamp(0.25_f64, 0.0, 0.999), 0.25);
    assert!(clamp(f64::NAN, 0.0, 0.999).is_nan());
}

#[test]
fn decimal_text() {
    let mut out = b"x".to_vec();
    push_decimal(&mut out, 0);
    assert_eq!(out, b"x0".to_vec());
    let mut out = Vec::new();
    push_decimal(&mut out, u64::MAX);
    assert_eq!(out, u64::MAX.to_string().into_bytes());
    let mut out = Vec::new();
    push_decimal(&mut out, 1090);
    assert_eq!(out, b"1090".to_vec());
}

#[test]
fn header_text() {
    assert_eq!(ppm_header(400, 225), b"P3\n400 225\n255\n".to_vec());
    assert_eq!(ppm_header(1, 0), b"P3\n1 0\n255\n".to_vec());
}

#[test]
fn pixel_text() {
    assert_eq!(pixel_line(0, 128, 255), b"0 128 255\n".to_vec());
    assert_eq!(pixel_line(7, 0, 90), b"7 0 90\n".to_vec());
}

#[test]
fn config_accepts_positive_sizes() {
    let c = RenderConfig::new(400, 225, 100, 50).unwrap();
    assert_eq!(c.image_width, 400);
    assert_eq!(c.image_height, 225);
    assert_eq!(c.samples_per_pixel, 100);
    assert_eq!(c.max_depth, 50);
    assert_eq!(c.header(), b"P3\n400 225\n255\n".to_vec());
    assert_eq!(RenderConfig::new(1, 1, 1, -4).unwrap().max_depth, -4);
}

#[test]
fn config_rejects_empty_images_and_no_samples() {
    assert_eq!(RenderConfig::new(0, 225, 100, 50), Err(ConfigError::BadWidth));
    assert_eq!(RenderConfig::new(-4, 0, 0, 50), Err(ConfigError::BadWidth));
    assert_eq!(RenderConfig::new(400, 0, 100, 50), Err(ConfigError::BadHeight));
    assert_eq!(RenderConfig::new(400, -1, 0, 50), Err(ConfigError::BadHeight));
    assert_eq!(RenderConfig::new(400, 225, 0, 50), Err(ConfigError::NoSamples));
    assert_eq!(RenderConfig::new(400, 225, -2, 50), Err(ConfigError::NoSamples));
}

#[test]
fn rows_are_written_top_down() {
    let c = RenderConfig::new(4, 3, 1, 1).unwrap();
    assert_eq!(c.plane_row(0), 2);
    assert_eq!(c.plane_row(1), 1);
    assert_eq!(c.plane_row(2), 0);
}

#[test]
fn zero_depth_is_black_without_tracing() {
    assert_eq!(run_path(0, &[]), (Step::Finish(Terminal::Black), 0));
    assert_eq!(run_path(-3, &[]), (Step::Finish(Terminal::Black), 0));
}

#[test]
fn miss_ends_in_sky() {
    assert_eq!(run_path(1, &[Surface::Missed]), (Step::Finish(Terminal::Sky), 1));
    assert_eq!(run_path(50, &[Surface::Missed]), (Step::Finish(Terminal::Sky), 1));
}

#[test]
fn scatter_then_miss_ends_in_sky() {
    let found = [Surface::Scattered, Surface::Scattered, Surface::Missed];
    assert_eq!(run_path(3, &found), (Step::Finish(Terminal::Sky), 3));
}

#[test]
fn absorption_ends_in_black() {
    let found = [Surface::Scattered, Surface::Absorbed];
    assert_eq!(run_path(5, &found), (Step::Finish(Terminal::Black), 2));
}

#[test]
fn budget_runs_out_in_black() {
    let found = [Surface::Scattered, Surface::Scattered, Surface::Missed];
    assert_eq!(run_path(2, &found), (Step::Finish(Terminal::Black), 2));
    assert_eq!(run_path(1, &found), (Step::Finish(Terminal::Black), 1));
}
