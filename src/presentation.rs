use vstd::prelude::*;

verus! {

/// A colour as red, green and blue intensities.
#[derive(PartialEq, Eq, Structural, Clone, Copy, Debug)]
pub struct Rgb {
    pub r: u8,
    pub g: u8,
    pub b: u8,
}

/// The text and background colours of a label.
#[derive(PartialEq, Eq, Structural, Clone, Copy, Debug)]
pub struct TextColors {
    pub text: Rgb,
    pub background: Rgb,
}

/// Dark text on a light background, or light text on a dark background.
pub open spec fn spec_contrast_colors(highlight: bool, dark_mode: bool) -> TextColors {
    if highlight == dark_mode {
        TextColors { text: Rgb { r: 10, g: 10, b: 10 }, background: Rgb { r: 255, g: 255, b: 255 } }
    } else {
        TextColors { text: Rgb { r: 200, g: 200, b: 200 }, background: Rgb { r: 27, g: 27, b: 27 } }
    }
}

/// The colours of a label: a highlighted label stands out against the theme,
/// so it takes the light scheme in dark mode and the dark one in light mode.
pub fn contrast_colors(highlight: bool, dark_mode: bool) -> (c: TextColors)
    ensures
        c == spec_contrast_colors(highlight, dark_mode),
{
    if highlight == dark_mode {
        TextColors { text: Rgb { r: 10, g: 10, b: 10 }, background: Rgb { r: 255, g: 255, b: 255 } }
    } else {
        TextColors { text: Rgb { r: 200, g: 200, b: 200 }, background: Rgb { r: 27, g: 27, b: 27 } }
    }
}

} // verus!
