//! The ends between which the colours of a brand are interpolated while it
//! fades. The interpolation itself is done on the colour channels by the host
//! application's animation.

use bevy::color::Color;
use vstd::prelude::*;

verus! {

/// A lens that is made from the colours at the two ends of a fade.
pub trait InstanceLens: Sized {
    /// The lens that leads from `start` to `end`.
    fn create(start: Color, end: Color) -> Self;
}

/// Leads the colour of an image from `start` to `end`.
#[derive(Clone, Copy, Debug, PartialEq)]
pub struct SplashImageColorLens {
    /// Start color.
    pub start: Color,
    /// End color.
    pub end: Color,
}

impl InstanceLens for SplashImageColorLens {
    fn create(start: Color, end: Color) -> (lens: Self)
        ensures
            lens == (SplashImageColorLens { start, end }),
    {
        Self { start, end }
    }
}

/// Leads the colours of the sections of a text from transparent to the
/// colours held here, one for each section in their order.
#[derive(Clone, Debug, PartialEq)]
pub struct SplashTextColorLens(Vec<Color>);

impl SplashTextColorLens {
    /// The colours of the sections, in their order.
    pub closed spec fn view(&self) -> Seq<Color> {
        self.0@
    }

    /// Create instance of Text Lens
    ///
    /// * `colors`: Each color refers to a section and is placed in order.
    pub fn new(colors: Vec<Color>) -> (lens: Self)
        ensures
            lens@ == colors@,
    {
        Self(colors)
    }

    /// The colours of the sections, in their order.
    pub fn colors(&self) -> (colors: &Vec<Color>)
        ensures
            colors@ == self@,
    {
        &self.0
    }
}

} // verus!
