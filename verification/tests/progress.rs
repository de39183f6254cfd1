use bevy::color::Color;
use bevy_splash_screen::splash::create_splash;
use bevy_splash_screen::systems::{update_splash, MaxScreens, SplashBackground, SplashProgress};
use bevy_splash_screen::{
    SplashAssetType, SplashItem, SplashPlugin, SplashScreen, SplashScreens, SplashType,
    WaitScreenType,
};
use bevy_tweening::EaseMethod;
use std::time::Duration;

fn red() -> Color {
    Color::srgb(1., 0., 0.)
}

fn green() -> Color {
    Color::srgb(0., 1., 0.)
}

fn background() -> SplashBackground {
    SplashBackground {
        screens: vec![4, 2, 2],
        screen_colors: vec![Color::BLACK, red(), green()],
    }
}

fn max_screens() -> MaxScreens<&'static str> {
    MaxScreens(2, "menu", 8)
}

#[test]
fn fresh_progress_has_counted_nothing() {
    let progress = SplashProgress::new();
    assert_eq!(progress.screens_end(), 0);
    assert_eq!(progress.brands_showed(0), 0);
    assert_eq!(progress.brands_showed(7), 0);
    let progress = SplashProgress::default();
    assert_eq!(progress.screens_end(), 0);
    assert_eq!(progress.brands_showed(0), 0);
}

#[test]
fn record_counts_per_screen_and_altogether() {
    let mut progress = SplashProgress::new();
    assert_eq!(progress.record(0), 1);
    assert_eq!(progress.record(1), 1);
    assert_eq!(progress.record(0), 2);
    assert_eq!(progress.record(0), 3);
    assert_eq!(progress.screens_end(), 4);
    assert_eq!(progress.brands_showed(0), 3);
    assert_eq!(progress.brands_showed(1), 1);
    assert_eq!(progress.brands_showed(2), 0);
}

#[test]
fn next_color_comes_with_the_last_completion_of_a_screen() {
    let background = background();
    assert_eq!(background.next_color(0, 3), None);
    assert_eq!(background.next_color(0, 4), Some(red()));
    assert_eq!(background.next_color(0, 5), None);
    assert_eq!(background.next_color(1, 2), Some(green()));
    assert_eq!(background.next_color(1, 1), None);
}

#[test]
fn last_screen_has_no_next_color() {
    let background = background();
    assert_eq!(background.next_color(2, 2), None);
    assert_eq!(background.next_color(2, 1), None);
}

#[test]
fn next_color_needs_a_colour_for_the_next_screen() {
    let background = SplashBackground {
        screens: vec![2, 2],
        screen_colors: vec![Color::BLACK],
    };
    assert_eq!(background.next_color(0, 2), None);
}

#[test]
fn update_without_events_changes_nothing() {
    let mut progress = SplashProgress::new();
    progress.record(0);
    let update = update_splash(&mut progress, &max_screens(), &vec![&background()], &vec![]);
    assert!(!update.clear);
    assert_eq!(update.colors, vec![None]);
    assert_eq!(progress.screens_end(), 1);
    assert_eq!(progress.brands_showed(0), 1);
}

#[test]
fn update_counts_every_event() {
    let mut progress = SplashProgress::new();
    let update = update_splash(
        &mut progress,
        &max_screens(),
        &vec![&background()],
        &vec![0, 0, 1],
    );
    assert!(!update.clear);
    assert_eq!(update.colors, vec![None]);
    assert_eq!(progress.screens_end(), 3);
    assert_eq!(progress.brands_showed(0), 2);
    assert_eq!(progress.brands_showed(1), 1);
}

#[test]
fn background_moves_on_when_a_screen_is_done() {
    let mut progress = SplashProgress::new();
    let shown = background();
    let backgrounds = vec![&shown];
    let update = update_splash(&mut progress, &max_screens(), &backgrounds, &vec![0, 0, 0]);
    assert_eq!(update.colors, vec![None]);
    let update = update_splash(&mut progress, &max_screens(), &backgrounds, &vec![0]);
    assert_eq!(update.colors, vec![Some(red())]);
    let update = update_splash(&mut progress, &max_screens(), &backgrounds, &vec![1]);
    assert_eq!(update.colors, vec![None]);
    let update = update_splash(&mut progress, &max_screens(), &backgrounds, &vec![1]);
    assert_eq!(update.colors, vec![Some(green())]);
    assert!(!update.clear);
}

#[test]
fn last_colour_taken_in_a_round_stays() {
    let mut progress = SplashProgress::new();
    let update = update_splash(
        &mut progress,
        &max_screens(),
        &vec![&background()],
        &vec![0, 0, 0, 0, 1, 1, 2],
    );
    assert_eq!(update.colors, vec![Some(green())]);
    assert!(!update.clear);
    assert_eq!(progress.screens_end(), 7);
}

#[test]
fn colour_taken_early_in_a_round_is_kept() {
    let mut progress = SplashProgress::new();
    let update = update_splash(
        &mut progress,
        &max_screens(),
        &vec![&background()],
        &vec![0, 0, 0, 0, 1, 2],
    );
    assert_eq!(update.colors, vec![Some(red())]);
}

#[test]
fn further_completions_of_a_done_screen_change_nothing() {
    let mut progress = SplashProgress::new();
    let shown = background();
    let backgrounds = vec![&shown];
    update_splash(&mut progress, &max_screens(), &backgrounds, &vec![0, 0, 0, 0]);
    let update = update_splash(&mut progress, &max_screens(), &backgrounds, &vec![0]);
    assert_eq!(update.colors, vec![None]);
    assert_eq!(progress.brands_showed(0), 5);
}

#[test]
fn splash_is_over_with_the_last_completion_of_the_last_screen() {
    let mut progress = SplashProgress::new();
    let shown = background();
    let backgrounds = vec![&shown];
    let update = update_splash(
        &mut progress,
        &max_screens(),
        &backgrounds,
        &vec![0, 0, 0, 0, 1, 1, 2],
    );
    assert!(!update.clear);
    let update = update_splash(&mut progress, &max_screens(), &backgrounds, &vec![2]);
    assert!(update.clear);
    assert_eq!(update.colors, vec![None]);
    assert_eq!(progress.screens_end(), 8);
}

#[test]
fn splash_is_over_within_one_round() {
    let mut progress = SplashProgress::new();
    let update = update_splash(
        &mut progress,
        &max_screens(),
        &vec![&background()],
        &vec![0, 0, 0, 0, 1, 1, 2, 2],
    );
    assert!(update.clear);
    assert_eq!(update.colors, vec![Some(green())]);
}

#[test]
fn splash_is_over_when_another_screen_completes_last() {
    let mut progress = SplashProgress::new();
    let update = update_splash(
        &mut progress,
        &max_screens(),
        &vec![&background()],
        &vec![0, 0, 0, 0, 2, 2, 1, 1],
    );
    assert!(update.clear);
    assert_eq!(progress.screens_end(), 8);
}

#[test]
fn splash_is_over_when_the_first_screen_completes_last() {
    let mut progress = SplashProgress::new();
    let shown = background();
    let backgrounds = vec![&shown];
    let update = update_splash(
        &mut progress,
        &max_screens(),
        &backgrounds,
        &vec![0, 0, 0, 1, 1, 2, 2],
    );
    assert!(!update.clear);
    assert_eq!(update.colors, vec![Some(green())]);
    let update = update_splash(&mut progress, &max_screens(), &backgrounds, &vec![0]);
    assert!(update.clear);
    assert_eq!(update.colors, vec![Some(red())]);
    assert_eq!(progress.screens_end(), 8);
}

#[test]
fn splash_is_not_over_with_the_last_screen_before_the_total() {
    let mut progress = SplashProgress::new();
    let update = update_splash(
        &mut progress,
        &max_screens(),
        &vec![&background()],
        &vec![0, 1, 2, 2],
    );
    assert!(!update.clear);
    assert_eq!(progress.screens_end(), 4);
}

#[test]
fn splash_is_not_over_again_without_events() {
    let mut progress = SplashProgress::new();
    let shown = background();
    let backgrounds = vec![&shown];
    let update = update_splash(
        &mut progress,
        &max_screens(),
        &backgrounds,
        &vec![0, 0, 0, 0, 1, 1, 2, 2],
    );
    assert!(update.clear);
    let update = update_splash(&mut progress, &max_screens(), &backgrounds, &vec![]);
    assert!(!update.clear);
    assert_eq!(progress.screens_end(), 8);
}

#[test]
fn only_the_last_event_of_a_round_ends_the_splash() {
    let mut progress = SplashProgress::new();
    let update = update_splash(
        &mut progress,
        &max_screens(),
        &vec![&background()],
        &vec![0, 0, 0, 0, 1, 1, 2, 2, 2],
    );
    assert!(!update.clear);
    assert_eq!(progress.screens_end(), 9);
}

#[test]
fn splash_is_not_over_before_all_completions_are_in() {
    let mut progress = SplashProgress::new();
    let update = update_splash(&mut progress, &max_screens(), &vec![&background()], &vec![2, 2]);
    assert!(!update.clear);
}

#[test]
fn every_background_is_told_its_colour() {
    let mut progress = SplashProgress::new();
    let other = SplashBackground {
        screens: vec![1, 9, 9],
        screen_colors: vec![Color::WHITE, green(), red()],
    };
    let update = update_splash(
        &mut progress,
        &max_screens(),
        &vec![&background(), &other],
        &vec![0],
    );
    assert_eq!(update.colors, vec![None, Some(green())]);
}

#[test]
fn events_are_counted_without_a_background() {
    let mut progress = SplashProgress::new();
    let update = update_splash(&mut progress, &MaxScreens(5, (), 2), &vec![], &vec![9, 5]);
    assert!(update.clear);
    assert_eq!(update.colors, vec![]);
    assert_eq!(progress.screens_end(), 2);
    assert_eq!(progress.brands_showed(9), 1);
}

#[test]
fn planned_splash_runs_to_its_end() {
    let brand = |secs: u64| SplashItem {
        asset: SplashAssetType::SingleImage("logo.png".to_string()),
        tint: Color::WHITE,
        width: 1u8,
        height: 1u8,
        ease_function: EaseMethod::Linear,
        duration: Duration::from_secs(secs),
        is_static: false,
    };
    let screen = |brands: Vec<SplashItem<(), u8>>, color: Color| SplashScreen {
        brands,
        splash_type: SplashType::List,
        wait_to_start: WaitScreenType::AfterEnd,
        background_color: color,
    };
    let plugin = SplashPlugin::new("splash", "menu")
        .add_screen(screen(vec![brand(1), brand(2)], Color::BLACK))
        .add_screen(screen(vec![brand(3)], red()));
    let max_screens = plugin.build().unwrap();
    let plan = create_splash(&SplashScreens(plugin.screens().0.clone()));
    let mut events: Vec<u64> = Vec::new();
    for screen in plan.screens.iter() {
        for brand in screen.brands.iter() {
            for _ in 0..brand.animator.repeat_count {
                events.push(brand.animator.user_data);
            }
        }
    }
    assert_eq!(events, vec![0, 0, 0, 0, 1, 1]);
    let mut progress = SplashProgress::new();
    let backgrounds = vec![&plan.background];
    let (last, rest) = events.split_last().unwrap();
    let update = update_splash(&mut progress, &max_screens, &backgrounds, &rest.to_vec());
    assert!(!update.clear);
    assert_eq!(update.colors, vec![Some(red())]);
    let update = update_splash(&mut progress, &max_screens, &backgrounds, &vec![*last]);
    assert!(update.clear);
    assert_eq!(update.colors, vec![None]);
}
