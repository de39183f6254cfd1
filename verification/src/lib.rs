//! Verified core of a splash-screen plugin for Bevy: the configuration of
//! screens and brands, the timing of their fade animations, and the
//! bookkeeping that decides when the splash is over.

pub mod host;
pub mod lens;
pub mod plugin;
pub mod screen;
pub mod splash;
pub mod systems;
pub mod time;

pub use lens::{InstanceLens, SplashImageColorLens, SplashTextColorLens};
pub use plugin::SplashPlugin;
pub use systems::ClearSplash;
pub use screen::{
    SplashAssetType, SplashItem, SplashScreen, SplashScreenSkipEvent, SplashScreenSkipable,
    SplashScreens, SplashType, WaitScreenType,
};
