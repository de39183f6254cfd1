//! The timing of a splash: how long each screen waits for the one before it,
//! and the animation that each brand is given.

use crate::screen::{
    brands_upto, SplashAssetType, SplashItem, SplashScreen, SplashScreens, SplashType,
    WaitScreenType,
};
use crate::systems::SplashBackground;
use crate::time::{
    duration_secs, duration_subsec_nanos, fits_after_one, is_zero_time, sum_fits_after_one,
};
use bevy::color::Color;
use bevy_tweening::EaseMethod;
use std::time::Duration;
use vstd::prelude::*;

verus! {

/// The larger of two second counts.
pub open spec fn longer(a: u64, b: u64) -> u64 {
    if a >= b {
        a
    } else {
        b
    }
}

/// The longest duration among the brands, in whole seconds; `None` where there
/// is no brand.
pub open spec fn longest_secs<T, V>(brands: Seq<SplashItem<T, V>>) -> Option<u64>
    decreases brands.len(),
{
    if brands.len() == 0 {
        None
    } else {
        let last = duration_secs(brands.last().duration);
        match longest_secs(brands.drop_last()) {
            Some(longest) => Some(longer(longest, last)),
            None => Some(last),
        }
    }
}

/// The longest duration among the brands is the duration of one of them, and
/// no brand takes longer; there is none exactly where there is no brand.
pub proof fn lemma_longest_secs<T, V>(brands: Seq<SplashItem<T, V>>)
    ensures
        longest_secs(brands) is None <==> brands.len() == 0,
        longest_secs(brands) matches Some(longest) ==> {
            &&& exists|j: int|
                0 <= j < brands.len() && duration_secs(#[trigger] brands[j].duration) == longest
            &&& forall|j: int|
                0 <= j < brands.len() ==> duration_secs(#[trigger] brands[j].duration) <= longest
        },
    decreases brands.len(),
{
    if brands.len() > 0 {
        let rest = brands.drop_last();
        let last = brands.len() - 1;
        lemma_longest_secs(rest);
        let longest = longest_secs(brands)->Some_0;
        assert forall|j: int| 0 <= j < brands.len() implies duration_secs(
            #[trigger] brands[j].duration,
        ) <= longest by {
            if j < last {
                assert(rest[j] == brands[j]);
            }
        }
        match longest_secs(rest) {
            Some(before) => {
                if before >= duration_secs(brands[last].duration) {
                    let j = choose|j: int|
                        0 <= j < rest.len() && duration_secs(#[trigger] rest[j].duration) == before;
                    assert(rest[j] == brands[j]);
                    assert(duration_secs(brands[j].duration) == longest);
                } else {
                    assert(duration_secs(brands[last].duration) == longest);
                }
            },
            None => {
                assert(duration_secs(brands[last].duration) == longest);
            },
        }
    }
}

/// The seconds that the screen after `screen` waits when `screen` is left to
/// end by itself: a second, and for each screen up to it the longest brand of
/// `screen` fading in and out. A screen without brands counts as one second.
pub open spec fn after_end_secs<T, V>(screen: SplashScreen<T, V>, curr_screen: int) -> int {
    let longest = match longest_secs(screen.brands@) {
        Some(secs) => secs,
        None => 1u64,
    };
    longest * 2 * curr_screen + 1
}

/// The whole seconds of the time that screen `curr_screen` waits before its
/// brands start to fade in.
pub open spec fn wait_secs<T, V>(screens: Seq<SplashScreen<T, V>>, curr_screen: int) -> int {
    if curr_screen == 0 {
        1
    } else {
        match screens[curr_screen - 1].wait_to_start {
            WaitScreenType::AfterEnd => after_end_secs(screens[curr_screen - 1], curr_screen),
            WaitScreenType::Specific(wait) => duration_secs(wait) as int,
        }
    }
}

/// The nanoseconds below a second of the time that screen `curr_screen` waits.
pub open spec fn wait_subsec_nanos<T, V>(screens: Seq<SplashScreen<T, V>>, curr_screen: int) -> int {
    if curr_screen == 0 {
        0
    } else {
        match screens[curr_screen - 1].wait_to_start {
            WaitScreenType::AfterEnd => 0,
            WaitScreenType::Specific(wait) => duration_subsec_nanos(wait) as int,
        }
    }
}

/// Whether the wait of screen `curr_screen` can be computed: a wait that is
/// counted in seconds must fit 64 bits.
pub open spec fn wait_fits<T, V>(screens: Seq<SplashScreen<T, V>>, curr_screen: int) -> bool {
    wait_secs(screens, curr_screen) <= u64::MAX
}

/// Whether `wait` is the time that screen `curr_screen` waits: the first
/// screen one second, a later one what the screen before it asks for.
pub open spec fn is_max_duration<T, V>(
    screens: Seq<SplashScreen<T, V>>,
    curr_screen: int,
    wait: Duration,
) -> bool {
    &&& duration_secs(wait) == wait_secs(screens, curr_screen)
    &&& duration_subsec_nanos(wait) == wait_subsec_nanos(screens, curr_screen)
    &&& curr_screen > 0 ==> (screens[curr_screen - 1].wait_to_start matches WaitScreenType::Specific(
        given,
    ) ==> wait == given)
}

/// The longest duration among the brands in whole seconds, if there is a brand.
fn longest_brand_secs<T, V>(brands: &Vec<SplashItem<T, V>>) -> (longest: Option<u64>)
    ensures
        longest == longest_secs(brands@),
{
    let mut longest: Option<u64> = None;
    let mut j: usize = 0;
    while j < brands.len()
        invariant
            j <= brands.len(),
            longest == longest_secs(brands@.take(j as int)),
        decreases brands.len() - j,
    {
        let secs: u64 = brands[j].duration.as_secs();
        proof {
            assert(brands@.take(j + 1).drop_last() == brands@.take(j as int));
        }
        longest = match longest {
            Some(so_far) => Some(if so_far >= secs { so_far } else { secs }),
            None => Some(secs),
        };
        j += 1;
    }
    proof {
        assert(brands@.take(brands.len() as int) == brands@);
    }
    longest
}

/// The seconds that screen `curr_screen` waits after `screen`, a screen that
/// is left to end by itself; `None` where they do not fit 64 bits.
fn after_end_wait<T, V>(screen: &SplashScreen<T, V>, curr_screen: usize) -> (secs: Option<u64>)
    requires
        curr_screen >= 1,
    ensures
        secs is Some <==> after_end_secs(*screen, curr_screen as int) <= u64::MAX,
        secs matches Some(s) ==> s == after_end_secs(*screen, curr_screen as int),
{
    let longest: u64 = match longest_brand_secs(&screen.brands) {
        Some(secs) => secs,
        None => 1,
    };
    let count: u64 = curr_screen as u64;
    assert(longest * 2 <= longest * 2 * count) by (nonlinear_arith)
        requires
            count >= 1,
    ;
    match longest.checked_mul(2) {
        None => None,
        Some(twice) => match twice.checked_mul(count) {
            None => None,
            Some(all) => all.checked_add(1),
        },
    }
}

/// The time that screen `curr_screen` waits before its brands start to fade
/// in. The first screen waits one second. A later one waits what the screen
/// before it asks for: a time of its own, or the time its longest brand needs
/// to fade in and out, once for each screen so far, and a second.
pub fn get_max_duration<T, V>(screens: &SplashScreens<T, V>, curr_screen: usize) -> (wait: Duration)
    requires
        curr_screen <= screens.0@.len(),
        wait_fits(screens.0@, curr_screen as int),
    ensures
        is_max_duration(screens.0@, curr_screen as int, wait),
{
    if curr_screen == 0 {
        return Duration::from_secs(1);
    }
    let previous = &screens.0[curr_screen - 1];
    match previous.wait_to_start {
        WaitScreenType::AfterEnd => Duration::from_secs(
            after_end_wait(previous, curr_screen).unwrap(),
        ),
        WaitScreenType::Specific(wait) => wait,
    }
}

/// The seconds for which a brand is held hidden before anything else happens.
pub const HOLD_SECS: u64 = 1;

/// The number of times the fade of a brand plays: once in, once out.
pub const FADE_REPEATS: u32 = 2;

/// The animation of one brand. The brand is first held hidden for `hold`. It
/// stays hidden for `delay`. Then it fades from hidden to `tint` within
/// `fade`, `repeat_count` times, each time in the opposite direction if
/// `mirrored`. Every time the fade reaches an end, a completion is raised that
/// carries `user_data`.
pub struct AnimatorPlan {
    pub ease_function: EaseMethod,
    pub tint: Color,
    pub hold: Duration,
    pub delay: Duration,
    pub fade: Duration,
    pub repeat_count: u32,
    pub mirrored: bool,
    pub user_data: u64,
}

impl AnimatorPlan {
    /// Whether the animation can be played: the brand waits for more than no
    /// time, and the hold, the wait and one fade together are a time that a
    /// `Duration` can hold.
    pub open spec fn plays(&self) -> bool {
        &&& duration_secs(self.hold) == HOLD_SECS
        &&& duration_subsec_nanos(self.hold) == 0
        &&& can_animate(duration_secs(self.delay), duration_subsec_nanos(self.delay), self.fade)
    }
}

/// Whether a brand that fades within `fade` can be animated after a wait of
/// `delay_secs` seconds and `delay_nanos` nanoseconds: the wait must not be
/// zero, and the hold, the wait and the fade together must be a time that a
/// `Duration` can hold. An animation is put together from a delay, which
/// `bevy_tweening` refuses to make of no time, and the three times are added
/// up as `Duration`s when it is.
pub open spec fn can_animate(delay_secs: u64, delay_nanos: u32, fade: Duration) -> bool {
    &&& !is_zero_time(delay_secs, delay_nanos)
    &&& sum_fits_after_one(
        delay_secs,
        delay_nanos,
        duration_secs(fade),
        duration_subsec_nanos(fade),
    )
}

/// Whether `plan` is the animation of `brand` on screen `curr_screen`, which
/// waits for `delay`.
pub open spec fn is_animator<T, V>(
    brand: SplashItem<T, V>,
    delay: Duration,
    curr_screen: int,
    plan: AnimatorPlan,
) -> bool {
    &&& plan.ease_function == brand.ease_function
    &&& plan.tint == brand.tint
    &&& duration_secs(plan.hold) == HOLD_SECS
    &&& duration_subsec_nanos(plan.hold) == 0
    &&& plan.delay == delay
    &&& plan.fade == brand.duration
    &&& plan.repeat_count == FADE_REPEATS
    &&& plan.mirrored
    &&& plan.user_data == curr_screen
}

/// Tells whether a brand that fades within `fade` can be animated after a
/// wait of `delay`.
pub fn check_animate(delay: &Duration, fade: &Duration) -> (ok: bool)
    ensures
        ok == can_animate(duration_secs(*delay), duration_subsec_nanos(*delay), *fade),
{
    !delay.is_zero() && fits_after_one(delay, fade)
}

/// Plans the animation of `brand` on screen `curr_screen`, whose brands wait
/// for `max_duration` before they fade in.
pub fn create_animator<T, V>(
    brand: &SplashItem<T, V>,
    max_duration: Duration,
    curr_screen: usize,
) -> (plan: AnimatorPlan)
    requires
        can_animate(
            duration_secs(max_duration),
            duration_subsec_nanos(max_duration),
            brand.duration,
        ),
    ensures
        is_animator(*brand, max_duration, curr_screen as int, plan),
        plan.plays(),
{
    AnimatorPlan {
        ease_function: brand.ease_function,
        tint: brand.tint,
        hold: Duration::from_secs(HOLD_SECS),
        delay: max_duration,
        fade: brand.duration,
        repeat_count: FADE_REPEATS,
        mirrored: true,
        user_data: curr_screen as u64,
    }
}

/// The part of a brand that its animation fades.
#[derive(Clone, Copy, Debug, PartialEq, Eq, Structural)]
pub enum FadeTarget {
    /// The colours of a text's sections.
    Text,
    /// The colour of an image.
    Image,
}

/// The direction in which the brands of a screen follow each other.
#[derive(Clone, Copy, Debug, PartialEq, Eq, Structural)]
pub enum FlowDirection {
    Column,
    Row,
}

/// Whether the brands of a screen go on in a new line when one is full.
#[derive(Clone, Copy, Debug, PartialEq, Eq, Structural)]
pub enum FlowWrap {
    NoWrap,
    Wrap,
}

/// What is shown for one brand: the part that fades, and how.
pub struct BrandPlan {
    pub target: FadeTarget,
    pub animator: AnimatorPlan,
}

/// What is shown for one screen: how its brands are laid out, and the brands
/// in their order.
pub struct ScreenPlan {
    pub direction: FlowDirection,
    pub wrap: FlowWrap,
    pub brands: Vec<BrandPlan>,
}

/// What is shown for a whole splash: the background with the colour it starts
/// in, and the screens in their order.
pub struct SplashPlan {
    pub background_color: Color,
    pub background: SplashBackground,
    pub screens: Vec<ScreenPlan>,
}

/// The direction in which the brands of a screen of the given type follow each
/// other.
pub open spec fn flow_direction(splash_type: SplashType) -> FlowDirection {
    match splash_type {
        SplashType::List => FlowDirection::Column,
        SplashType::Grid => FlowDirection::Row,
    }
}

/// Whether the brands of a screen of the given type wrap.
pub open spec fn flow_wrap(splash_type: SplashType) -> FlowWrap {
    match splash_type {
        SplashType::List => FlowWrap::NoWrap,
        SplashType::Grid => FlowWrap::Wrap,
    }
}

/// The part of a brand that fades: the text of a text, the image of an image.
pub open spec fn fade_target<T>(asset: SplashAssetType<T>) -> FadeTarget {
    match asset {
        SplashAssetType::SingleText(_, _) => FadeTarget::Text,
        SplashAssetType::SingleImage(_) => FadeTarget::Image,
    }
}

/// Whether `plan` shows `brand` on screen `curr_screen`, which waits for
/// `delay`.
pub open spec fn is_brand_plan<T, V>(
    brand: SplashItem<T, V>,
    delay: Duration,
    curr_screen: int,
    plan: BrandPlan,
) -> bool {
    &&& plan.target == fade_target(brand.asset)
    &&& is_animator(brand, delay, curr_screen, plan.animator)
    &&& plan.animator.plays()
}

/// Whether `plan` shows screen `i` of `screens`: laid out by its type, brand
/// by brand in the same order, each waiting for the time the screen waits.
pub open spec fn is_screen_plan<T, V>(
    screens: Seq<SplashScreen<T, V>>,
    i: int,
    plan: ScreenPlan,
) -> bool {
    &&& plan.direction == flow_direction(screens[i].splash_type)
    &&& plan.wrap == flow_wrap(screens[i].splash_type)
    &&& plan.brands@.len() == screens[i].brands@.len()
    &&& forall|j: int|
        0 <= j < plan.brands@.len() ==> {
            &&& is_max_duration(screens, i, (#[trigger] plan.brands@[j]).animator.delay)
            &&& is_brand_plan(
                screens[i].brands@[j],
                plan.brands@[j].animator.delay,
                i,
                plan.brands@[j],
            )
        }
}

/// Whether `background` is what the background knows of `screens`: for each
/// screen two completions for every brand, and the screen's colour.
pub open spec fn is_background<T, V>(
    screens: Seq<SplashScreen<T, V>>,
    background: SplashBackground,
) -> bool {
    &&& background.screens@.len() == screens.len()
    &&& background.screen_colors@.len() == screens.len()
    &&& forall|i: int|
        0 <= i < screens.len() ==> #[trigger] background.screens@[i] == 2
            * screens[i].brands@.len()
    &&& forall|i: int|
        0 <= i < screens.len() ==> #[trigger] background.screen_colors@[i]
            == screens[i].background_color
}

/// The completions that the first `n` screens raise together, by the counts
/// that a background holds.
pub open spec fn completions_upto(counts: Seq<u64>, n: int) -> nat
    decreases n,
{
    if n <= 0 {
        0
    } else {
        completions_upto(counts, n - 1) + counts[n - 1] as nat
    }
}

/// The counts that the background holds add up to two completions for each
/// brand of the splash: what the splash is measured against when it ends.
pub proof fn lemma_background_completions<T, V>(
    screens: Seq<SplashScreen<T, V>>,
    background: SplashBackground,
    n: int,
)
    requires
        is_background(screens, background),
        0 <= n <= screens.len(),
    ensures
        completions_upto(background.screens@, n) == 2 * brands_upto(screens, n),
    decreases n,
{
    if n > 0 {
        lemma_background_completions(screens, background, n - 1);
        assert(background.screens@[n - 1] == 2 * screens[n - 1].brands@.len());
    }
}

/// Whether `plan` shows the splash of `screens`.
pub open spec fn is_splash_plan<T, V>(screens: Seq<SplashScreen<T, V>>, plan: SplashPlan) -> bool {
    &&& plan.background_color == screens[0].background_color
    &&& is_background(screens, plan.background)
    &&& plan.screens@.len() == screens.len()
    &&& forall|i: int|
        0 <= i < screens.len() ==> is_screen_plan(screens, i, #[trigger] plan.screens@[i])
}

/// Whether screen `i` can be shown: its completions can be counted in 64 bits,
/// its wait can be computed, and each of its brands can be animated after
/// that wait.
pub open spec fn screen_fits<T, V>(screens: Seq<SplashScreen<T, V>>, i: int) -> bool {
    &&& 2 * screens[i].brands@.len() <= u64::MAX
    &&& wait_fits(screens, i)
    &&& forall|j: int|
        0 <= j < screens[i].brands@.len() ==> can_animate(
            wait_secs(screens, i) as u64,
            wait_subsec_nanos(screens, i) as u32,
            (#[trigger] screens[i].brands@[j]).duration,
        )
}

/// Whether the splash can be shown: there is a screen, and every screen fits.
pub open spec fn splash_fits<T, V>(screens: Seq<SplashScreen<T, V>>) -> bool {
    &&& screens.len() > 0
    &&& forall|i: int| 0 <= i < screens.len() ==> #[trigger] screen_fits(screens, i)
}

/// The time that screen `curr_screen` waits, or `None` where that time,
/// counted in seconds, does not fit 64 bits.
pub fn checked_max_duration<T, V>(screens: &SplashScreens<T, V>, curr_screen: usize) -> (wait:
    Option<Duration>)
    requires
        curr_screen <= screens.0@.len(),
    ensures
        wait is Some <==> wait_fits(screens.0@, curr_screen as int),
        wait matches Some(w) ==> is_max_duration(screens.0@, curr_screen as int, w),
{
    if curr_screen == 0 {
        return Some(Duration::from_secs(1));
    }
    let previous = &screens.0[curr_screen - 1];
    match previous.wait_to_start {
        WaitScreenType::AfterEnd => match after_end_wait(previous, curr_screen) {
            Some(secs) => Some(Duration::from_secs(secs)),
            None => None,
        },
        WaitScreenType::Specific(wait) => Some(wait),
    }
}

/// Tells whether screen `i` can be shown.
fn check_screen<T, V>(screens: &SplashScreens<T, V>, i: usize) -> (ok: bool)
    requires
        i < screens.0@.len(),
    ensures
        ok == screen_fits(screens.0@, i as int),
{
    let screen = &screens.0[i];
    if screen.brands.len() as u64 > u64::MAX / 2 {
        return false;
    }
    let wait = match checked_max_duration(screens, i) {
        Some(wait) => wait,
        None => {
            return false;
        },
    };
    let mut j: usize = 0;
    while j < screen.brands.len()
        invariant
            j <= screen.brands@.len(),
            screen == screens.0@[i as int],
            is_max_duration(screens.0@, i as int, wait),
            forall|k: int|
                0 <= k < j ==> can_animate(
                    wait_secs(screens.0@, i as int) as u64,
                    wait_subsec_nanos(screens.0@, i as int) as u32,
                    (#[trigger] screen.brands@[k]).duration,
                ),
        decreases screen.brands.len() - j,
    {
        if !check_animate(&wait, &screen.brands[j].duration) {
            return false;
        }
        j += 1;
    }
    true
}

/// Tells whether the splash of `screens` can be shown.
pub fn check_splash<T, V>(screens: &SplashScreens<T, V>) -> (ok: bool)
    ensures
        ok == splash_fits(screens.0@),
{
    if screens.0.len() == 0 {
        return false;
    }
    let mut i: usize = 0;
    while i < screens.0.len()
        invariant
            i <= screens.0@.len(),
            forall|k: int| 0 <= k < i ==> #[trigger] screen_fits(screens.0@, k),
        decreases screens.0.len() - i,
    {
        if !check_screen(screens, i) {
            return false;
        }
        i += 1;
    }
    true
}

/// What the background knows of the screens.
fn create_background<T, V>(screens: &SplashScreens<T, V>) -> (background: SplashBackground)
    requires
        forall|i: int|
            0 <= i < screens.0@.len() ==> 2 * (#[trigger] screens.0@[i]).brands@.len() <= u64::MAX,
    ensures
        is_background(screens.0@, background),
{
    let mut counts: Vec<u64> = Vec::new();
    let mut colors: Vec<Color> = Vec::new();
    let mut i: usize = 0;
    while i < screens.0.len()
        invariant
            i <= screens.0@.len(),
            counts@.len() == i,
            colors@.len() == i,
            forall|k: int|
                0 <= k < screens.0@.len() ==> 2 * (#[trigger] screens.0@[k]).brands@.len()
                    <= u64::MAX,
            forall|k: int| 0 <= k < i ==> #[trigger] counts@[k] == 2 * screens.0@[k].brands@.len(),
            forall|k: int| 0 <= k < i ==> #[trigger] colors@[k] == screens.0@[k].background_color,
        decreases screens.0.len() - i,
    {
        let screen = &screens.0[i];
        counts.push(screen.brands.len() as u64 * 2);
        colors.push(screen.background_color);
        i += 1;
    }
    SplashBackground { screens: counts, screen_colors: colors }
}

/// Plans screen `i_screen`: its layout, and the animation of each brand.
fn create_screen<T, V>(screens: &SplashScreens<T, V>, i_screen: usize) -> (plan: ScreenPlan)
    requires
        i_screen < screens.0@.len(),
        screen_fits(screens.0@, i_screen as int),
    ensures
        is_screen_plan(screens.0@, i_screen as int, plan),
{
    let screen = &screens.0[i_screen];
    let (direction, wrap) = match screen.splash_type {
        SplashType::List => (FlowDirection::Column, FlowWrap::NoWrap),
        SplashType::Grid => (FlowDirection::Row, FlowWrap::Wrap),
    };
    let max_duration = get_max_duration(screens, i_screen);
    let mut brands: Vec<BrandPlan> = Vec::new();
    let mut j: usize = 0;
    while j < screen.brands.len()
        invariant
            j <= screen.brands@.len(),
            i_screen < screens.0@.len(),
            screen == screens.0@[i_screen as int],
            screen_fits(screens.0@, i_screen as int),
            is_max_duration(screens.0@, i_screen as int, max_duration),
            brands@.len() == j,
            forall|k: int|
                0 <= k < j ==> {
                    &&& (#[trigger] brands@[k]).animator.delay == max_duration
                    &&& is_brand_plan(screen.brands@[k], max_duration, i_screen as int, brands@[k])
                },
        decreases screen.brands.len() - j,
    {
        let brand = &screen.brands[j];
        let target = match &brand.asset {
            SplashAssetType::SingleText(_, _) => FadeTarget::Text,
            SplashAssetType::SingleImage(_) => FadeTarget::Image,
        };
        let animator = create_animator(brand, max_duration, i_screen);
        brands.push(BrandPlan { target, animator });
        j += 1;
    }
    ScreenPlan { direction, wrap, brands }
}

/// Plans what is shown for the splash of `screens`: the background, and screen
/// by screen the layout and the animation of each brand. A brand of screen `i`
/// waits hidden for the time that `get_max_duration` gives for `i`, fades in
/// and out again, and raises two completions that carry `i`.
pub fn create_splash<T, V>(screens: &SplashScreens<T, V>) -> (plan: SplashPlan)
    requires
        splash_fits(screens.0@),
    ensures
        is_splash_plan(screens.0@, plan),
{
    assert forall|i: int| 0 <= i < screens.0@.len() implies 2 * (
    #[trigger] screens.0@[i]).brands@.len() <= u64::MAX by {
        assert(screen_fits(screens.0@, i));
    }
    let background = create_background(screens);
    let mut plans: Vec<ScreenPlan> = Vec::new();
    let mut i_screen: usize = 0;
    while i_screen < screens.0.len()
        invariant
            i_screen <= screens.0@.len(),
            splash_fits(screens.0@),
            plans@.len() == i_screen,
            forall|k: int|
                0 <= k < i_screen ==> is_screen_plan(screens.0@, k, #[trigger] plans@[k]),
        decreases screens.0.len() - i_screen,
    {
        assert(screen_fits(screens.0@, i_screen as int));
        let plan = create_screen(screens, i_screen);
        plans.push(plan);
        i_screen += 1;
    }
    SplashPlan { background_color: screens.0[0].background_color, background, screens: plans }
}

/// Plans what is shown for the splash of `screens`, or gives `None` where the
/// splash cannot be shown.
pub fn checked_create_splash<T, V>(screens: &SplashScreens<T, V>) -> (plan: Option<SplashPlan>)
    ensures
        plan is Some <==> splash_fits(screens.0@),
        plan matches Some(p) ==> is_splash_plan(screens.0@, p),
{
    if check_splash(screens) {
        Some(create_splash(screens))
    } else {
        None
    }
}

} // verus!
