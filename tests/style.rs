use oberon::style::{Color, Grayscale, Rgb};

#[test]
fn mix_truncates() {
    let mixed = Rgb::black().mix(Rgb::white(), 1, 2);
    assert_eq!(mixed, Rgb::new(127, 127, 127));
}

#[test]
fn mix_endpoints() {
    let a = Rgb::new(10, 20, 30);
    let b = Rgb::new(200, 100, 0);
    assert_eq!(a.mix(b, 0, 5), a);
    assert_eq!(a.mix(b, 5, 5), b);
    assert_eq!(a.mix(b, 1, 4), Rgb::new(57, 40, 22));
}

#[test]
fn default_absorbs_mixing() {
    let red = Color::rgb(255, 0, 0);
    assert_eq!(red.mix(Color::Default, 1, 2), Color::Default);
    assert_eq!(Color::Default.mix(red, 1, 2), Color::Default);
    assert_eq!(red.mix(Color::Rgb(Rgb::blue()), 1, 2), Color::rgb(127, 0, 127));
}

#[test]
fn random_colour_is_explicit() {
    assert!(matches!(Color::random(), Color::Rgb(_)));
    let _ = Rgb::random();
}

#[test]
fn grayscale_luma_and_ramp() {
    assert_eq!(Grayscale::from_rgb(Rgb::white()), Grayscale::new(255));
    assert_eq!(Grayscale::from_rgb(Rgb::red()), Grayscale::new(76));
    assert_eq!(Grayscale::from_rgb(Rgb::green()), Grayscale::new(149));
    assert_eq!(Grayscale::new(0).into_char(), ' ');
    assert_eq!(Grayscale::new(128).into_char(), '+');
    assert_eq!(Grayscale::new(254).into_char(), '@');
}
