//! Colors of Material Symbols and the CSS values they stand for.

use vstd::prelude::*;

verus! {

/// Colors of Material Symbols.
#[derive(Clone, Copy, Debug, PartialEq, Eq)]
pub enum MaterialIconColor<'a> {
    /// For using symbols as black on a light background.
    Dark,
    /// For using inactive symbols as black on a light background.
    DarkInactive,
    /// For using symbols as white on a dark background.
    Light,
    /// For using inactive symbols as white on a dark background.
    LightInactive,
    /// Custom color, any CSS color, e.g. `#0000ff` or `red`.
    Custom(&'a str),
}

/// The view of a color: a custom color is the sequence of its characters.
pub enum ColorView {
    Dark,
    DarkInactive,
    Light,
    LightInactive,
    Custom(Seq<char>),
}

impl<'a> View for MaterialIconColor<'a> {
    type V = ColorView;

    open spec fn view(&self) -> ColorView {
        match *self {
            MaterialIconColor::Dark => ColorView::Dark,
            MaterialIconColor::DarkInactive => ColorView::DarkInactive,
            MaterialIconColor::Light => ColorView::Light,
            MaterialIconColor::LightInactive => ColorView::LightInactive,
            MaterialIconColor::Custom(c) => ColorView::Custom(c@),
        }
    }
}

impl ColorView {
    /// The CSS color value of a color. A custom color is its own value,
    /// whatever it holds.
    pub open spec fn css_color(self) -> Seq<char> {
        match self {
            ColorView::Dark => "rgba(0,0,0,0.54)"@,
            ColorView::DarkInactive => "rgba(0,0,0,0.26)"@,
            ColorView::Light => "rgba(255,255,255,1)"@,
            ColorView::LightInactive => "rgba(255,255,255,0.3)"@,
            ColorView::Custom(c) => c,
        }
    }
}

impl<'a> MaterialIconColor<'a> {
    /// Converts the color to its corresponding CSS color.
    pub fn to_css_color(&self) -> (css: &str)
        ensures
            css@ == self@.css_color(),
    {
        match self {
            MaterialIconColor::Dark => "rgba(0,0,0,0.54)",
            MaterialIconColor::DarkInactive => "rgba(0,0,0,0.26)",
            MaterialIconColor::Light => "rgba(255,255,255,1)",
            MaterialIconColor::LightInactive => "rgba(255,255,255,0.3)",
            MaterialIconColor::Custom(c) => c,
        }
    }
}

impl<'a> From<&'a str> for MaterialIconColor<'a> {
    /// Takes any string as a custom color.
    fn from(value: &'a str) -> (color: Self) {
        MaterialIconColor::Custom(value)
    }
}

impl<'a> vstd::std_specs::convert::FromSpecImpl<&'a str> for MaterialIconColor<'a> {
    open spec fn obeys_from_spec() -> bool {
        true
    }

    open spec fn from_spec(value: &'a str) -> Self {
        MaterialIconColor::Custom(value)
    }
}

} // verus!
