use bevy::color::Color;
use bevy_splash_screen::{InstanceLens, SplashImageColorLens, SplashTextColorLens};

#[test]
fn image_lens_leads_from_start_to_end() {
    let hidden = Color::srgba(1., 1., 1., 0.);
    let lens = SplashImageColorLens::create(hidden, Color::WHITE);
    assert_eq!(lens.start, hidden);
    assert_eq!(lens.end, Color::WHITE);
    assert_eq!(
        lens,
        SplashImageColorLens { start: hidden, end: Color::WHITE }
    );
}

#[test]
fn text_lens_keeps_the_colours_in_order() {
    let colors = vec![Color::WHITE, Color::BLACK, Color::srgb(0., 0., 1.)];
    let lens = SplashTextColorLens::new(colors.clone());
    assert_eq!(lens.colors(), &colors);
    assert_eq!(lens, SplashTextColorLens::new(colors));
}

#[test]
fn text_lens_may_be_empty() {
    let lens = SplashTextColorLens::new(Vec::new());
    assert_eq!(lens.colors().len(), 0);
}
