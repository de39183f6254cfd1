//! The plugin: the description of a splash that a host application puts
//! together, and what is set up from it when the application is built.

use crate::screen::{brands_upto, total_brands, SplashScreen, SplashScreenSkipable, SplashScreens};
use crate::systems::MaxScreens;
use vstd::prelude::*;

verus! {

/// Shows the screens added to it while the application is in one state, and
/// moves it on to another when the splash is over.
pub struct SplashPlugin<S, T, V> {
    state: S,
    next: S,
    skipable: bool,
    ignore_default_events: bool,
    screens: SplashScreens<T, V>,
}

/// What a plugin holds.
pub struct SplashPluginView<S, T, V> {
    /// The state in which the splash is shown.
    pub state: S,
    /// The state that follows the splash.
    pub next: S,
    pub skipable: bool,
    pub ignore_default_events: bool,
    pub screens: Seq<SplashScreen<T, V>>,
}

/// Whether the completions of all brands of `screens` together can be counted
/// in a `usize`.
pub open spec fn completions_fit<T, V>(screens: Seq<SplashScreen<T, V>>) -> bool {
    2 * total_brands(screens) <= usize::MAX
}

/// The number of completions that all brands of `screens` raise together: two
/// for each brand. `None` where that number does not fit a `usize`.
pub fn checked_completions<T, V>(screens: &SplashScreens<T, V>) -> (count: Option<usize>)
    ensures
        count is Some <==> completions_fit(screens.0@),
        count matches Some(n) ==> n == 2 * total_brands(screens.0@),
{
    let mut brands: usize = 0;
    let mut i: usize = 0;
    while i < screens.0.len()
        invariant
            i <= screens.0@.len(),
            brands == brands_upto(screens.0@, i as int),
        decreases screens.0.len() - i,
    {
        match brands.checked_add(screens.0[i].brands.len()) {
            Some(sum) => {
                brands = sum;
            },
            None => {
                proof {
                    crate::screen::lemma_brands_upto_monotonic(
                        screens.0@,
                        i + 1,
                        screens.0@.len() as int,
                    );
                }
                return None;
            },
        }
        i += 1;
    }
    brands.checked_mul(2)
}

impl<S, T, V> SplashPlugin<S, T, V> {
    /// What the plugin holds.
    pub closed spec fn view(&self) -> SplashPluginView<S, T, V> {
        SplashPluginView {
            state: self.state,
            next: self.next,
            skipable: self.skipable,
            ignore_default_events: self.ignore_default_events,
            screens: self.screens.0@,
        }
    }

    /// A splash without screens that is shown in `splash_state`, leads to
    /// `next_state` and cannot be skipped.
    pub fn new(splash_state: S, next_state: S) -> (plugin: Self)
        ensures
            plugin@ == (SplashPluginView {
                state: splash_state,
                next: next_state,
                skipable: false,
                ignore_default_events: false,
                screens: Seq::<SplashScreen<T, V>>::empty(),
            }),
    {
        SplashPlugin {
            skipable: false,
            ignore_default_events: false,
            state: splash_state,
            next: next_state,
            screens: SplashScreens(Vec::new()),
        }
    }

    /// The same splash, which can be skipped.
    pub fn skipable(self) -> (plugin: Self)
        ensures
            plugin@ == (SplashPluginView { skipable: true, ..self@ }),
    {
        let mut plugin = self;
        plugin.skipable = true;
        plugin
    }

    /// The same splash, which no key, mouse button, touch or gamepad button
    /// skips.
    pub fn ignore_default_events(self) -> (plugin: Self)
        ensures
            plugin@ == (SplashPluginView { ignore_default_events: true, ..self@ }),
    {
        let mut plugin = self;
        plugin.ignore_default_events = true;
        plugin
    }

    /// The same splash with `screen` after the screens it has.
    pub fn add_screen(self, screen: SplashScreen<T, V>) -> (plugin: Self)
        ensures
            plugin@ == (SplashPluginView { screens: self@.screens.push(screen), ..self@ }),
    {
        let mut plugin = self;
        plugin.screens.0.push(screen);
        plugin
    }

    /// The state in which the splash is shown.
    pub fn state(&self) -> (state: &S)
        ensures
            *state == self@.state,
    {
        &self.state
    }

    /// The screens of the splash.
    pub fn screens(&self) -> (screens: &SplashScreens<T, V>)
        ensures
            screens.0@ == self@.screens,
    {
        &self.screens
    }

    /// Whether the splash can be skipped, and whether the default input
    /// events are ignored.
    pub fn skip_settings(&self) -> (settings: SplashScreenSkipable)
        ensures
            settings == SplashScreenSkipable(self@.skipable, self@.ignore_default_events),
    {
        SplashScreenSkipable(self.skipable, self.ignore_default_events)
    }
}

impl<S: Clone, T, V> SplashPlugin<S, T, V> {
    /// What the running splash is measured against. A plugin without screens
    /// sets nothing up. Otherwise the splash is over when the last screen has
    /// raised the last of the completions, two for each brand, and the state
    /// that follows is a clone of the one given to `new`.
    pub fn build(&self) -> (setup: Option<MaxScreens<S>>)
        requires
            completions_fit(self@.screens),
        ensures
            setup is None <==> self@.screens.len() == 0,
            setup matches Some(max_screens) ==> {
                &&& max_screens.0 == self@.screens.len() - 1
                &&& cloned(self@.next, max_screens.1)
                &&& max_screens.2 == 2 * total_brands(self@.screens)
            },
    {
        if self.screens.0.len() == 0 {
            return None;
        }
        match checked_completions(&self.screens) {
            Some(completions) => Some(
                MaxScreens(self.screens.0.len() as u64 - 1, self.next.clone(), completions as u64),
            ),
            None => None,
        }
    }
}

} // verus!
