//! The configuration of a splash: screens, and the brands shown on each.
//!
//! A brand's text and its box sizes belong to the user interface of the host
//! application. The library never inspects them, so the types here are generic
//! in the text type `T` and in the length type `V`.

use bevy::color::Color;
use bevy_tweening::EaseMethod;
use std::time::Duration;
use vstd::prelude::*;

verus! {

/// What a brand shows.
pub enum SplashAssetType<T> {
    /// Content and font: a text, and the path of the font it is set in.
    SingleText(T, String),
    /// The path of an image.
    SingleImage(String),
}

/// `b` is what cloning `a` may give: the same kind of asset with the same
/// path, around a clone of the text.
pub open spec fn asset_cloned<T: Clone>(a: SplashAssetType<T>, b: SplashAssetType<T>) -> bool {
    match (a, b) {
        (SplashAssetType::SingleText(t, font), SplashAssetType::SingleText(t2, font2)) => {
            cloned(t, t2) && font == font2
        },
        (SplashAssetType::SingleImage(path), SplashAssetType::SingleImage(path2)) => path == path2,
        _ => false,
    }
}

impl<T: Clone> Clone for SplashAssetType<T> {
    fn clone(&self) -> (r: Self)
        ensures
            asset_cloned(*self, r),
    {
        match self {
            SplashAssetType::SingleText(text, font) => {
                SplashAssetType::SingleText(text.clone(), font.clone())
            },
            SplashAssetType::SingleImage(path) => SplashAssetType::SingleImage(path.clone()),
        }
    }
}

/// How the brands of one screen are laid out.
#[derive(Clone, Copy, Debug, PartialEq, Eq, Structural)]
pub enum SplashType {
    /// One brand below the other.
    List,
    /// Side by side, wrapping to the next row.
    Grid,
}

impl Default for SplashType {
    fn default() -> (r: Self)
        ensures
            r == SplashType::List,
    {
        SplashType::List
    }
}

/// One brand of a screen: what it shows, and how it fades in and out.
pub struct SplashItem<T, V> {
    pub asset: SplashAssetType<T>,
    /// The colour of the brand when it is fully shown.
    pub tint: Color,
    pub width: V,
    pub height: V,
    pub ease_function: EaseMethod,
    /// How long the brand takes to fade in, and again to fade out.
    pub duration: Duration,
    pub is_static: bool,
}

/// `b` is what cloning `a` may give: every field the same, but for the asset's
/// text and the two sizes, which are clones.
pub open spec fn item_cloned<T: Clone, V: Clone>(a: SplashItem<T, V>, b: SplashItem<T, V>) -> bool {
    &&& asset_cloned(a.asset, b.asset)
    &&& b.tint == a.tint
    &&& cloned(a.width, b.width)
    &&& cloned(a.height, b.height)
    &&& b.ease_function == a.ease_function
    &&& b.duration == a.duration
    &&& b.is_static == a.is_static
}

impl<T: Clone, V: Clone> Clone for SplashItem<T, V> {
    fn clone(&self) -> (r: Self)
        ensures
            item_cloned(*self, r),
    {
        SplashItem {
            asset: self.asset.clone(),
            tint: self.tint,
            width: self.width.clone(),
            height: self.height.clone(),
            ease_function: self.ease_function,
            duration: self.duration,
            is_static: self.is_static,
        }
    }
}

/// When a screen's successor starts its fade.
#[derive(Debug, PartialEq, Eq)]
pub enum WaitScreenType {
    /// Once the longest brand of the screen has faded in and out.
    AfterEnd,
    /// After the given time, whatever the brands take.
    Specific(Duration),
}

impl Clone for WaitScreenType {
    fn clone(&self) -> (r: Self)
        ensures
            r == *self,
    {
        match self {
            WaitScreenType::AfterEnd => WaitScreenType::AfterEnd,
            WaitScreenType::Specific(wait) => WaitScreenType::Specific(*wait),
        }
    }
}

impl Default for WaitScreenType {
    fn default() -> (r: Self)
        ensures
            r == WaitScreenType::AfterEnd,
    {
        WaitScreenType::AfterEnd
    }
}

/// One screen of the splash.
pub struct SplashScreen<T, V> {
    pub brands: Vec<SplashItem<T, V>>,
    pub splash_type: SplashType,
    pub wait_to_start: WaitScreenType,
    /// The colour behind the brands while this screen is shown.
    pub background_color: Color,
}

/// `b` is what cloning `a` may give: the same layout, wait and background, and
/// brand by brand a clone.
pub open spec fn screen_cloned<T: Clone, V: Clone>(
    a: SplashScreen<T, V>,
    b: SplashScreen<T, V>,
) -> bool {
    &&& b.brands@.len() == a.brands@.len()
    &&& forall|j: int|
        0 <= j < a.brands@.len() ==> item_cloned(#[trigger] a.brands@[j], b.brands@[j])
    &&& b.splash_type == a.splash_type
    &&& b.wait_to_start == a.wait_to_start
    &&& b.background_color == a.background_color
}

impl<T: Clone, V: Clone> Clone for SplashScreen<T, V> {
    fn clone(&self) -> (r: Self)
        ensures
            screen_cloned(*self, r),
    {
        let brands = self.brands.clone();
        assert forall|j: int| 0 <= j < self.brands@.len() implies item_cloned(
            #[trigger] self.brands@[j],
            brands@[j],
        ) by {
            assert(cloned(self.brands@[j], brands@[j]));
        }
        SplashScreen {
            brands,
            splash_type: self.splash_type,
            wait_to_start: self.wait_to_start.clone(),
            background_color: self.background_color,
        }
    }
}

impl<T, V> Default for SplashScreen<T, V> {
    fn default() -> (r: Self)
        ensures
            r.brands@.len() == 0,
            r.splash_type == SplashType::List,
            r.wait_to_start == WaitScreenType::AfterEnd,
    {
        SplashScreen {
            brands: Vec::new(),
            splash_type: SplashType::List,
            wait_to_start: WaitScreenType::AfterEnd,
            background_color: Color::default(),
        }
    }
}

/// Sent by the host application to ask for the splash to end at once.
pub struct SplashScreenSkipEvent;

/// Whether the splash can be skipped, and whether the default input events
/// (keys, mouse buttons, touches, gamepad buttons) are ignored when deciding.
#[derive(Clone, Copy, Debug, PartialEq, Eq, Structural)]
pub struct SplashScreenSkipable(pub bool, pub bool);

impl Default for SplashScreenSkipable {
    fn default() -> (r: Self)
        ensures
            r == SplashScreenSkipable(false, false),
    {
        SplashScreenSkipable(false, false)
    }
}

/// The screens of a splash, in the order in which they are shown.
pub struct SplashScreens<T, V>(pub Vec<SplashScreen<T, V>>);

impl<T: Clone, V: Clone> Clone for SplashScreens<T, V> {
    fn clone(&self) -> (r: Self)
        ensures
            r.0@.len() == self.0@.len(),
            forall|i: int| 0 <= i < self.0@.len() ==> screen_cloned(#[trigger] self.0@[i], r.0@[i]),
    {
        let screens = self.0.clone();
        assert forall|i: int| 0 <= i < self.0@.len() implies screen_cloned(
            #[trigger] self.0@[i],
            screens@[i],
        ) by {
            assert(cloned(self.0@[i], screens@[i]));
        }
        SplashScreens(screens)
    }
}

impl<T, V> Default for SplashScreens<T, V> {
    fn default() -> (r: Self)
        ensures
            r.0@.len() == 0,
    {
        SplashScreens(Vec::new())
    }
}

/// The number of brands on the first `n` screens together.
pub open spec fn brands_upto<T, V>(screens: Seq<SplashScreen<T, V>>, n: int) -> nat
    decreases n,
{
    if n <= 0 {
        0
    } else {
        brands_upto(screens, n - 1) + screens[n - 1].brands@.len()
    }
}

/// The number of brands on all screens together.
pub open spec fn total_brands<T, V>(screens: Seq<SplashScreen<T, V>>) -> nat {
    brands_upto(screens, screens.len() as int)
}

/// The brand count never shrinks as more screens are taken in.
pub proof fn lemma_brands_upto_monotonic<T, V>(screens: Seq<SplashScreen<T, V>>, i: int, j: int)
    requires
        i <= j,
    ensures
        brands_upto(screens, i) <= brands_upto(screens, j),
    decreases j - i,
{
    if i < j {
        lemma_brands_upto_monotonic(screens, i, j - 1);
    }
}

} // verus!
