use dioxus_material_symbols::MaterialIconColor;

#[test]
fn dark_is_black_at_54_percent() {
    assert_eq!(MaterialIconColor::Dark.to_css_color(), "rgba(0,0,0,0.54)");
}

#[test]
fn dark_inactive_is_black_at_26_percent() {
    assert_eq!(
        MaterialIconColor::DarkInactive.to_css_color(),
        "rgba(0,0,0,0.26)"
    );
}

#[test]
fn light_is_opaque_white() {
    assert_eq!(MaterialIconColor::Light.to_css_color(), "rgba(255,255,255,1)");
}

#[test]
fn light_inactive_is_white_at_30_percent() {
    assert_eq!(
        MaterialIconColor::LightInactive.to_css_color(),
        "rgba(255,255,255,0.3)"
    );
}

#[test]
fn custom_color_is_its_own_css_color() {
    assert_eq!(MaterialIconColor::Custom("#0000ff").to_css_color(), "#0000ff");
    assert_eq!(MaterialIconColor::Custom("red").to_css_color(), "red");
}

#[test]
fn custom_color_is_not_validated() {
    assert_eq!(MaterialIconColor::Custom("").to_css_color(), "");
    assert_eq!(
        MaterialIconColor::Custom("not a color; at all").to_css_color(),
        "not a color; at all"
    );
    assert_eq!(
        MaterialIconColor::Custom(" rgba( 1,2 ,3) \u{e9}").to_css_color(),
        " rgba( 1,2 ,3) \u{e9}"
    );
}

#[test]
fn a_string_converts_to_a_custom_color() {
    assert_eq!(MaterialIconColor::from("blue"), MaterialIconColor::Custom("blue"));
    let color: MaterialIconColor = "hsl(120, 100%, 50%)".into();
    assert_eq!(color.to_css_color(), "hsl(120, 100%, 50%)");
}

#[test]
fn a_color_name_as_string_stays_custom() {
    assert_eq!(MaterialIconColor::from("Dark"), MaterialIconColor::Custom("Dark"));
    assert_ne!(MaterialIconColor::from("Dark"), MaterialIconColor::Dark);
}
