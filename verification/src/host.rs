//! Engine types that the library carries through without looking inside.

use vstd::prelude::*;

verus! {

/// `bevy::color::Color`, held as an opaque value: nothing is claimed of its
/// channels.
#[verifier::external_type_specification]
#[verifier::external_body]
pub struct ExColor(bevy::color::Color);

/// `bevy_tweening::EaseMethod`, held as an opaque value: nothing is claimed of
/// the curve it stands for.
#[verifier::external_type_specification]
#[verifier::external_body]
pub struct ExEaseMethod(bevy_tweening::EaseMethod);

/// `Color::default`, the colour a screen has behind its brands unless one is
/// given. Nothing is claimed of the colour returned.
pub assume_specification[ <bevy::color::Color as Default>::default ]() -> (c: bevy::color::Color)
;

} // verus!
