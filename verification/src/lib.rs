#![allow(non_snake_case)]

//! Material Symbols for Dioxus: the mapping from an icon's configuration to
//! the markup that shows it.

pub mod color;
pub mod decimal;
pub mod icon;
pub mod style;
pub mod stylesheet;
pub mod text;

pub use color::MaterialIconColor;
pub use icon::{IconMarkup, MaterialIcon, MaterialIconProps};
pub use stylesheet::{
    MaterialIconStylesheet, MaterialIconStylesheetProps, MaterialIconVariant, StylesheetMarkup,
};
