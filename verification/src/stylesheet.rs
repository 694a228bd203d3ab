//! The stylesheet that the icons need: a link to a hosted one, or an inline
//! style block that loads a self-hosted font file.

use crate::text::{lemma_part_occurs, occurs_at};
use vstd::prelude::*;

verus! {

/// Variants (also called categories) of the Material Symbols font.
#[derive(Clone, Copy, Debug, PartialEq, Eq)]
pub enum MaterialIconVariant<'a> {
    /// Outlined
    Outlined,
    /// Rounded
    Rounded,
    /// Sharp
    Sharp,
    /// Self-hosted font file: the path or URL of a ttf or otf file.
    SelfHosted(&'a str),
}

/// The view of a variant: the font file is the sequence of its characters.
pub enum VariantView {
    Outlined,
    Rounded,
    Sharp,
    SelfHosted(Seq<char>),
}

impl<'a> View for MaterialIconVariant<'a> {
    type V = VariantView;

    open spec fn view(&self) -> VariantView {
        match *self {
            MaterialIconVariant::Outlined => VariantView::Outlined,
            MaterialIconVariant::Rounded => VariantView::Rounded,
            MaterialIconVariant::Sharp => VariantView::Sharp,
            MaterialIconVariant::SelfHosted(file) => VariantView::SelfHosted(file@),
        }
    }
}

/// Props of the [`MaterialIconStylesheet`] component.
#[derive(Clone, Copy, Debug, PartialEq, Eq)]
pub struct MaterialIconStylesheetProps<'a> {
    /// The variant whose stylesheet is included.
    pub variant: MaterialIconVariant<'a>,
}

impl<'a> Default for MaterialIconStylesheetProps<'a> {
    /// The rounded variant.
    fn default() -> (props: Self)
        ensures
            props.variant@ == VariantView::Rounded,
    {
        MaterialIconStylesheetProps { variant: MaterialIconVariant::Rounded }
    }
}

/// The markup that includes a stylesheet.
#[derive(Debug, PartialEq, Eq)]
pub enum StylesheetMarkup {
    /// A `link` element with the attributes `href` and `rel`.
    Link { href: &'static str, rel: &'static str },
    /// A `style` element with its text.
    Style { css: String },
}

/// The view of the stylesheet markup.
pub enum StylesheetMarkupView {
    Link { href: Seq<char>, rel: Seq<char> },
    Style { css: Seq<char> },
}

impl View for StylesheetMarkup {
    type V = StylesheetMarkupView;

    open spec fn view(&self) -> StylesheetMarkupView {
        match *self {
            StylesheetMarkup::Link { href, rel } => StylesheetMarkupView::Link {
                href: href@,
                rel: rel@,
            },
            StylesheetMarkup::Style { css } => StylesheetMarkupView::Style { css: css@ },
        }
    }
}

/// The self-hosted style sheet up to the place of the font file.
pub const SELF_HOSTED_HEAD: &'static str =
    "@font-face {\n  font-family: 'Material Symbols';\n  font-style: normal;\n  font-weight: 400;\n  src: url(";

/// The self-hosted style sheet after the place of the font file.
pub const SELF_HOSTED_TAIL: &'static str =
    ");\n}\n\n.material-symbols {\n  font-family: 'Material Symbols';\n  font-weight: normal;\n  font-style: normal;\n  font-size: 24px;\n  line-height: 1;\n  letter-spacing: normal;\n  text-transform: none;\n  display: inline-block;\n  white-space: nowrap;\n  word-wrap: normal;\n  direction: ltr;\n  -webkit-font-smoothing: antialiased;\n  -moz-osx-font-smoothing: grayscale;\n  text-rendering: optimizeLegibility;\n  font-feature-settings: 'liga';\n}\n";

/// The style sheet that loads the font from `file`: the file stands in the
/// one place between head and tail, as it is.
pub open spec fn self_hosted_css(file: Seq<char>) -> Seq<char> {
    SELF_HOSTED_HEAD@ + file + SELF_HOSTED_TAIL@
}

/// The address of the hosted stylesheet of a variant; empty for a
/// self-hosted font, which has none.
pub open spec fn hosted_stylesheet_url(variant: VariantView) -> Seq<char> {
    match variant {
        VariantView::Outlined => "https://fonts.googleapis.com/icon?family=Material+Symbols+Outlined"@,
        VariantView::Rounded => "https://fonts.googleapis.com/icon?family=Material+Symbols+Rounded"@,
        VariantView::Sharp => "https://fonts.googleapis.com/icon?family=Material+Symbols+Sharp"@,
        VariantView::SelfHosted(_) => Seq::<char>::empty(),
    }
}

/// The markup that includes the stylesheet of a variant.
pub open spec fn stylesheet_markup(variant: VariantView) -> StylesheetMarkupView {
    match variant {
        VariantView::SelfHosted(file) => StylesheetMarkupView::Style { css: self_hosted_css(file) },
        _ => StylesheetMarkupView::Link {
            href: hosted_stylesheet_url(variant),
            rel: "stylesheet"@,
        },
    }
}

/// Stylesheet component: includes the Material Symbols stylesheet, which the
/// icons need to show their glyphs.
///
/// For a self-hosted font, pass the path or URL of the ttf or otf file in
/// [`MaterialIconVariant::SelfHosted`].
pub fn MaterialIconStylesheet<'a>(props: &MaterialIconStylesheetProps<'a>) -> (markup:
    StylesheetMarkup)
    ensures
        markup@ == stylesheet_markup(props.variant@),
{
    let href = match &props.variant {
        MaterialIconVariant::SelfHosted(file) => {
            let mut css = String::from_str(SELF_HOSTED_HEAD);
            css.append(file);
            css.append(SELF_HOSTED_TAIL);
            return StylesheetMarkup::Style { css };
        },
        MaterialIconVariant::Outlined => {
            "https://fonts.googleapis.com/icon?family=Material+Symbols+Outlined"
        },
        MaterialIconVariant::Rounded => {
            "https://fonts.googleapis.com/icon?family=Material+Symbols+Rounded"
        },
        MaterialIconVariant::Sharp => {
            "https://fonts.googleapis.com/icon?family=Material+Symbols+Sharp"
        },
    };
    StylesheetMarkup::Link { href, rel: "stylesheet" }
}

/// The self-hosted style sheet is its head, the font file as it was given,
/// and its tail, with nothing else before, between or after them.
pub proof fn lemma_self_hosted_file_in_place(file: Seq<char>)
    ensures
        self_hosted_css(file).len() == SELF_HOSTED_HEAD@.len() + file.len()
            + SELF_HOSTED_TAIL@.len(),
        occurs_at(self_hosted_css(file), SELF_HOSTED_HEAD@, 0),
        occurs_at(self_hosted_css(file), file, SELF_HOSTED_HEAD@.len() as int),
        occurs_at(
            self_hosted_css(file),
            SELF_HOSTED_TAIL@,
            (SELF_HOSTED_HEAD@.len() + file.len()) as int,
        ),
{
    let head = SELF_HOSTED_HEAD@;
    let tail = SELF_HOSTED_TAIL@;
    let none = Seq::<char>::empty();
    lemma_part_occurs(none, head, file + tail);
    assert(none + head + (file + tail) =~= self_hosted_css(file));
    lemma_part_occurs(head, file, tail);
    lemma_part_occurs(head + file, tail, none);
    assert(head + file + tail + none =~= self_hosted_css(file));
}

/// The font file can be read back from the self-hosted style sheet: two
/// files with the same style sheet are the same.
pub proof fn lemma_self_hosted_file_read_back(first: Seq<char>, second: Seq<char>)
    requires
        self_hosted_css(first) == self_hosted_css(second),
    ensures
        first == second,
{
    let head = SELF_HOSTED_HEAD@.len() as int;
    lemma_self_hosted_file_in_place(first);
    lemma_self_hosted_file_in_place(second);
    assert(first.len() == second.len());
    assert(first == self_hosted_css(first).subrange(head, head + first.len()));
}

} // verus!
