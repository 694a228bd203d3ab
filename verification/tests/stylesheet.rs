use dioxus_material_symbols::stylesheet::{SELF_HOSTED_HEAD, SELF_HOSTED_TAIL};
use dioxus_material_symbols::{
    MaterialIconStylesheet, MaterialIconStylesheetProps, MaterialIconVariant, StylesheetMarkup,
};

fn stylesheet(variant: MaterialIconVariant) -> StylesheetMarkup {
    MaterialIconStylesheet(&MaterialIconStylesheetProps { variant })
}

fn self_hosted_css(file: &str) -> String {
    match stylesheet(MaterialIconVariant::SelfHosted(file)) {
        StylesheetMarkup::Style { css } => css,
        StylesheetMarkup::Link { .. } => panic!("a self-hosted font has no link"),
    }
}

#[test]
fn outlined_links_to_the_hosted_stylesheet() {
    assert_eq!(
        stylesheet(MaterialIconVariant::Outlined),
        StylesheetMarkup::Link {
            href: "https://fonts.googleapis.com/icon?family=Material+Symbols+Outlined",
            rel: "stylesheet",
        }
    );
}

#[test]
fn rounded_links_to_the_hosted_stylesheet() {
    assert_eq!(
        stylesheet(MaterialIconVariant::Rounded),
        StylesheetMarkup::Link {
            href: "https://fonts.googleapis.com/icon?family=Material+Symbols+Rounded",
            rel: "stylesheet",
        }
    );
}

#[test]
fn sharp_links_to_the_hosted_stylesheet() {
    assert_eq!(
        stylesheet(MaterialIconVariant::Sharp),
        StylesheetMarkup::Link {
            href: "https://fonts.googleapis.com/icon?family=Material+Symbols+Sharp",
            rel: "stylesheet",
        }
    );
}

#[test]
fn hosted_variants_differ_only_in_the_family() {
    let prefix = "https://fonts.googleapis.com/icon?family=Material+Symbols+";
    for (variant, family) in [
        (MaterialIconVariant::Outlined, "Outlined"),
        (MaterialIconVariant::Rounded, "Rounded"),
        (MaterialIconVariant::Sharp, "Sharp"),
    ] {
        match stylesheet(variant) {
            StylesheetMarkup::Link { href, rel } => {
                assert_eq!(href, format!("{prefix}{family}"));
                assert_eq!(rel, "stylesheet");
            }
            StylesheetMarkup::Style { .. } => panic!("a hosted variant has no style block"),
        }
    }
}

#[test]
fn default_props_select_the_rounded_variant() {
    let props = MaterialIconStylesheetProps::default();
    assert_eq!(props.variant, MaterialIconVariant::Rounded);
    assert_eq!(
        MaterialIconStylesheet(&props),
        stylesheet(MaterialIconVariant::Rounded)
    );
}

#[test]
fn self_hosted_style_block_is_written_out() {
    let expected = "@font-face {\n\
\x20 font-family: 'Material Symbols';\n\
\x20 font-style: normal;\n\
\x20 font-weight: 400;\n\
\x20 src: url(examples/assets/MaterialIcons-Regular.ttf);\n\
}\n\
\n\
.material-symbols {\n\
\x20 font-family: 'Material Symbols';\n\
\x20 font-weight: normal;\n\
\x20 font-style: normal;\n\
\x20 font-size: 24px;\n\
\x20 line-height: 1;\n\
\x20 letter-spacing: normal;\n\
\x20 text-transform: none;\n\
\x20 display: inline-block;\n\
\x20 white-space: nowrap;\n\
\x20 word-wrap: normal;\n\
\x20 direction: ltr;\n\
\x20 -webkit-font-smoothing: antialiased;\n\
\x20 -moz-osx-font-smoothing: grayscale;\n\
\x20 text-rendering: optimizeLegibility;\n\
\x20 font-feature-settings: 'liga';\n\
}\n";
    assert_eq!(
        self_hosted_css("examples/assets/MaterialIcons-Regular.ttf"),
        expected
    );
}

#[test]
fn self_hosted_file_stands_between_head_and_tail() {
    let file = "https://example.org/fonts/symbols.otf";
    let css = self_hosted_css(file);
    assert_eq!(css, format!("{SELF_HOSTED_HEAD}{file}{SELF_HOSTED_TAIL}"));
    assert_eq!(
        css.len(),
        SELF_HOSTED_HEAD.len() + file.len() + SELF_HOSTED_TAIL.len()
    );
    assert_eq!(css.matches(file).count(), 1);
    assert_eq!(css.find(file), Some(SELF_HOSTED_HEAD.len()));
}

#[test]
fn self_hosted_file_is_the_only_thing_that_varies() {
    let first = self_hosted_css("a.ttf");
    let second = self_hosted_css("b.ttf");
    assert_ne!(first, second);
    assert_eq!(first.replace("a.ttf", "b.ttf"), second);
}

#[test]
fn self_hosted_file_is_not_validated() {
    assert_eq!(
        self_hosted_css(""),
        format!("{SELF_HOSTED_HEAD}{SELF_HOSTED_TAIL}")
    );
    let odd = "no such file) }} \"quoted\" \u{e9}\u{1f600}";
    assert_eq!(
        self_hosted_css(odd),
        format!("{SELF_HOSTED_HEAD}{odd}{SELF_HOSTED_TAIL}")
    );
}

#[test]
fn self_hosted_template_has_one_place_for_the_file() {
    assert!(SELF_HOSTED_HEAD.ends_with("src: url("));
    assert!(SELF_HOSTED_TAIL.starts_with(");"));
    assert!(!SELF_HOSTED_HEAD.contains("{}"));
    assert!(!SELF_HOSTED_TAIL.contains("{}"));
    assert_eq!(self_hosted_css("x").matches("url(").count(), 1);
}
