//! The icon itself: a span of text that the icon font draws as a glyph.

use crate::color::{ColorView, MaterialIconColor};
use crate::decimal::append_decimal;
use crate::style::{color_rule, font_size_rule, icon_style};
use vstd::prelude::*;

verus! {

/// Props of the [`MaterialIcon`] component.
#[derive(Clone, Copy, Debug, PartialEq, Eq)]
pub struct MaterialIconProps<'a> {
    /// Name of the symbol, e.g. `home`.
    pub name: &'a str,
    /// Size in pixels; without it the icon takes the font size around it.
    pub size: Option<u32>,
    /// Color; without it the icon takes the text color around it.
    pub color: Option<MaterialIconColor<'a>>,
}

/// The view of an icon's props.
pub struct IconPropsView {
    pub name: Seq<char>,
    pub size: Option<nat>,
    pub color: Option<ColorView>,
}

impl<'a> View for MaterialIconProps<'a> {
    type V = IconPropsView;

    open spec fn view(&self) -> IconPropsView {
        IconPropsView {
            name: self.name@,
            size: match self.size {
                Some(px) => Some(px as nat),
                None => None,
            },
            color: match self.color {
                Some(color) => Some(color@),
                None => None,
            },
        }
    }
}

/// The markup of an icon: one `span` element with a class list, an inline
/// style and a text.
#[derive(Debug, PartialEq, Eq)]
pub struct IconMarkup<'a> {
    /// The value of the `class` attribute.
    pub class: &'static str,
    /// The value of the `style` attribute.
    pub style: String,
    /// The text inside the element.
    pub text: &'a str,
}

/// The view of an icon's markup.
pub struct IconMarkupView {
    pub class: Seq<char>,
    pub style: Seq<char>,
    pub text: Seq<char>,
}

impl<'a> View for IconMarkup<'a> {
    type V = IconMarkupView;

    open spec fn view(&self) -> IconMarkupView {
        IconMarkupView { class: self.class@, style: self.style@, text: self.text@ }
    }
}

/// The class list of every icon. It names the classes of all the variants,
/// so the glyph shows whichever stylesheet is mounted.
pub open spec fn icon_class() -> Seq<char> {
    "material-symbols material-symbols-outlined material-symbols-rounded material-symbols-sharp md-48"@
}

/// The markup that shows an icon.
pub open spec fn icon_markup(props: IconPropsView) -> IconMarkupView {
    IconMarkupView {
        class: icon_class(),
        style: icon_style(props.size, props.color),
        text: props.name,
    }
}

/// Material Icon component: renders a Material Symbol.
///
/// The text of the element is the name of the symbol as given; the icon font
/// replaces it by the glyph.
pub fn MaterialIcon<'a>(props: &MaterialIconProps<'a>) -> (markup: IconMarkup<'a>)
    ensures
        markup@ == icon_markup(props@),
{
    let mut style = String::from_str("font-size: ");
    match props.size {
        Some(px) => {
            append_decimal(&mut style, px);
            style.append("px");
        },
        None => {
            style.append("inherit");
        },
    }
    style.append(";");
    assert(style@ =~= font_size_rule(props@.size));
    style.append(" ");
    match &props.color {
        Some(color) => {
            style.append("color: ");
            style.append(color.to_css_color());
            style.append(";");
        },
        None => {},
    }
    assert(style@ =~= font_size_rule(props@.size) + " "@ + color_rule(props@.color));
    style.append(" user-select: none;");
    IconMarkup {
        class: "material-symbols material-symbols-outlined material-symbols-rounded material-symbols-sharp md-48",
        style,
        text: props.name,
    }
}

} // verus!
