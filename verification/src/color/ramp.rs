//! Tonal ramps: one base color taken across the whole lightness range at constant hue.

use vstd::prelude::*;

use material_colors::color::Argb;
use material_colors::hct::Hct;
use material_colors::palette::TonalPalette;

use crate::theme::Rgb;

verus! {

/// The color `material_colors`' `TonalPalette` built from `base` (its HCT hue and chroma) gives
/// at `tone`.
pub uninterp spec fn tonal_tone(base: Rgb, tone: u8) -> Rgb;

pub open spec fn black() -> Rgb {
    Rgb { red: 0, green: 0, blue: 0 }
}

pub open spec fn white() -> Rgb {
    Rgb { red: 255, green: 255, blue: 255 }
}

/// `TonalPalette::from_hct(Hct::new(base)).tone(tone)`, with `base` taken as an opaque color.
/// Claimed: the result is the one `tonal_tone` names; tone 0 is black and tone 100 white, since
/// the solver renders those two tones as the grey of that lightness whatever the hue.
#[verifier::external_body]
fn palette_tone(base: Rgb, tone: u8) -> (r: Rgb)
    ensures
        r == tonal_tone(base, tone),
        tone == 0 ==> r == black(),
        tone == 100 ==> r == white(),
{
    let argb = TonalPalette::from_hct(Hct::new(Argb::new(u8::MAX, base.red, base.green, base.blue)))
        .tone(i32::from(tone));
    Rgb { red: argb.red, green: argb.green, blue: argb.blue }
}

/// The tones a base color takes from 0 (black) to 100 (white), keeping its hue and chroma.
#[derive(Debug, Clone, Copy, PartialEq, Eq, Structural)]
pub struct Ramp {
    base: Rgb,
}

impl Ramp {
    /// The color the ramp is built on.
    pub closed spec fn base_color(self) -> Rgb {
        self.base
    }

    /// The color at step `tone`, clamped to the scale.
    pub open spec fn at(self, tone: u8) -> Rgb {
        tonal_tone(self.base_color(), if tone > 100 { 100 } else { tone })
    }

    /// The ramp any color takes, whether or not it plays a role in the theme.
    pub fn of(base: Rgb) -> (r: Ramp)
        ensures
            r.base_color() == base,
    {
        Ramp { base }
    }

    /// Values above 100 are clamped, so callers cannot ask for a tone off the scale.
    pub fn tone(&self, tone: u8) -> (r: Rgb)
        ensures
            r == self.at(tone),
            tone == 0 ==> r == black(),
            tone >= 100 ==> r == white(),
    {
        let step = if tone > 100 { 100 } else { tone };
        palette_tone(self.base, step)
    }
}

/// Asking past the top of the scale gives the top of the scale.
pub proof fn lemma_ramp_clamps(ramp: Ramp, tone: u8)
    requires
        tone >= 100,
    ensures
        ramp.at(tone) == ramp.at(100),
{
}

} // verus!
