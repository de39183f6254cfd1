use bevy::color::Color;
use bevy_splash_screen::plugin::checked_completions;
use bevy_splash_screen::{
    SplashAssetType, SplashItem, SplashPlugin, SplashScreen, SplashScreenSkipable, SplashScreens,
    SplashType, WaitScreenType,
};
use bevy_tweening::EaseMethod;
use std::time::Duration;

fn brand(path: &str) -> SplashItem<String, i32> {
    SplashItem {
        asset: SplashAssetType::SingleImage(path.to_string()),
        tint: Color::WHITE,
        width: 60,
        height: 150,
        ease_function: EaseMethod::Linear,
        duration: Duration::from_secs(5),
        is_static: false,
    }
}

fn screen(paths: &[&str]) -> SplashScreen<String, i32> {
    SplashScreen {
        brands: paths.iter().map(|p| brand(p)).collect(),
        ..SplashScreen::default()
    }
}

#[test]
fn new_plugin_has_no_screens_and_cannot_be_skipped() {
    let plugin: SplashPlugin<u8, String, i32> = SplashPlugin::new(1, 2);
    assert_eq!(*plugin.state(), 1);
    assert_eq!(plugin.screens().0.len(), 0);
    assert_eq!(plugin.skip_settings(), SplashScreenSkipable(false, false));
}

#[test]
fn skipable_sets_only_the_first_flag() {
    let plugin: SplashPlugin<u8, String, i32> = SplashPlugin::new(1, 2).skipable();
    assert_eq!(plugin.skip_settings(), SplashScreenSkipable(true, false));
    assert_eq!(*plugin.state(), 1);
    assert_eq!(plugin.screens().0.len(), 0);
}

#[test]
fn ignore_default_events_sets_only_the_second_flag() {
    let plugin: SplashPlugin<u8, String, i32> = SplashPlugin::new(1, 2).ignore_default_events();
    assert_eq!(plugin.skip_settings(), SplashScreenSkipable(false, true));
}

#[test]
fn both_flags_can_be_set_in_either_order() {
    let plugin: SplashPlugin<u8, String, i32> =
        SplashPlugin::new(1, 2).ignore_default_events().skipable();
    assert_eq!(plugin.skip_settings(), SplashScreenSkipable(true, true));
    let plugin: SplashPlugin<u8, String, i32> =
        SplashPlugin::new(1, 2).skipable().ignore_default_events();
    assert_eq!(plugin.skip_settings(), SplashScreenSkipable(true, true));
}

#[test]
fn screens_are_kept_in_the_order_they_were_added() {
    let plugin = SplashPlugin::new(1u8, 2u8)
        .add_screen(screen(&["a.png"]))
        .skipable()
        .add_screen(screen(&["b.png", "c.png"]))
        .add_screen(screen(&[]));
    let screens = plugin.screens();
    assert_eq!(screens.0.len(), 3);
    assert_eq!(screens.0[0].brands.len(), 1);
    assert_eq!(screens.0[1].brands.len(), 2);
    assert_eq!(screens.0[2].brands.len(), 0);
    assert!(matches!(
        &screens.0[1].brands[1].asset,
        SplashAssetType::SingleImage(path) if path == "c.png"
    ));
    assert_eq!(plugin.skip_settings(), SplashScreenSkipable(true, false));
}

#[test]
fn plugin_without_screens_sets_nothing_up() {
    let plugin: SplashPlugin<u8, String, i32> = SplashPlugin::new(1, 2).skipable();
    assert!(plugin.build().is_none());
}

#[test]
fn build_measures_the_splash() {
    let plugin = SplashPlugin::new("splash".to_string(), "menu".to_string())
        .add_screen(screen(&["a.png"]))
        .add_screen(screen(&["b.png", "c.png"]))
        .add_screen(screen(&["d.png"]));
    let max_screens = plugin.build().unwrap();
    assert_eq!(max_screens.0, 2);
    assert_eq!(max_screens.1, "menu");
    assert_eq!(max_screens.2, 8);
}

#[test]
fn build_of_one_screen_without_brands() {
    let plugin = SplashPlugin::new(1u8, 2u8).add_screen(screen(&[]));
    let max_screens = plugin.build().unwrap();
    assert_eq!(max_screens.0, 0);
    assert_eq!(max_screens.1, 2);
    assert_eq!(max_screens.2, 0);
}

#[test]
fn completions_are_two_for_each_brand() {
    let screens = SplashScreens(vec![screen(&["a.png", "b.png"]), screen(&[]), screen(&["c.png"])]);
    assert_eq!(checked_completions(&screens), Some(6));
    let none: SplashScreens<String, i32> = SplashScreens(Vec::new());
    assert_eq!(checked_completions(&none), Some(0));
}

#[test]
fn default_screen_is_an_empty_list_that_ends_by_itself() {
    let screen: SplashScreen<String, i32> = SplashScreen::default();
    assert_eq!(screen.brands.len(), 0);
    assert_eq!(screen.splash_type, SplashType::List);
    assert_eq!(screen.wait_to_start, WaitScreenType::AfterEnd);
    assert_eq!(screen.background_color, Color::default());
}

#[test]
fn defaults_of_the_small_types() {
    assert_eq!(SplashType::default(), SplashType::List);
    assert_eq!(WaitScreenType::default(), WaitScreenType::AfterEnd);
    assert_eq!(SplashScreenSkipable::default(), SplashScreenSkipable(false, false));
    let screens: SplashScreens<String, i32> = SplashScreens::default();
    assert_eq!(screens.0.len(), 0);
}

#[test]
fn clone_of_a_screen_keeps_everything() {
    let mut first = screen(&["a.png", "b.png"]);
    first.splash_type = SplashType::Grid;
    first.wait_to_start = WaitScreenType::Specific(Duration::from_millis(1500));
    first.background_color = Color::BLACK;
    first.brands[1].tint = Color::srgb(0.5, 0.25, 0.125);
    first.brands[1].is_static = true;
    first.brands[0].asset =
        SplashAssetType::SingleText("hello".to_string(), "font.ttf".to_string());
    let copy = first.clone();
    assert_eq!(copy.brands.len(), 2);
    assert_eq!(copy.splash_type, SplashType::Grid);
    assert_eq!(
        copy.wait_to_start,
        WaitScreenType::Specific(Duration::from_millis(1500))
    );
    assert_eq!(copy.background_color, Color::BLACK);
    assert_eq!(copy.brands[1].tint, Color::srgb(0.5, 0.25, 0.125));
    assert!(copy.brands[1].is_static);
    assert!(!copy.brands[0].is_static);
    assert_eq!(copy.brands[0].width, 60);
    assert_eq!(copy.brands[0].height, 150);
    assert_eq!(copy.brands[0].duration, Duration::from_secs(5));
    assert!(matches!(
        &copy.brands[0].asset,
        SplashAssetType::SingleText(text, font) if text == "hello" && font == "font.ttf"
    ));
    assert!(matches!(
        &copy.brands[1].asset,
        SplashAssetType::SingleImage(path) if path == "b.png"
    ));
    let screens = SplashScreens(vec![first]).clone();
    assert_eq!(screens.0.len(), 1);
    assert_eq!(screens.0[0].brands.len(), 2);
}
