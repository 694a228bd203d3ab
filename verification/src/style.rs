//! The inline style of an icon, and what holds of its rules.

use crate::color::ColorView;
use crate::decimal::{decimal, is_digit, lemma_decimal_is_digits};
use crate::text::{
    contains_text, free_of, lemma_free_of_joined, lemma_occurrence_chars,
    lemma_occurrence_within_part, lemma_part_occurs, occurs_at,
};
use vstd::prelude::*;

verus! {

/// The value of the `font-size` property: the size in pixels, or `inherit`
/// where no size is given. The stylesheets set a default size, so `inherit`
/// has to be written out.
pub open spec fn font_size_value(size: Option<nat>) -> Seq<char> {
    match size {
        Some(px) => decimal(px) + "px"@,
        None => "inherit"@,
    }
}

/// The `font-size` rule of the inline style.
pub open spec fn font_size_rule(size: Option<nat>) -> Seq<char> {
    "font-size: "@ + font_size_value(size) + ";"@
}

/// The `color` rule of the inline style: empty where no color is given.
pub open spec fn color_rule(color: Option<ColorView>) -> Seq<char> {
    match color {
        Some(color) => "color: "@ + color.css_color() + ";"@,
        None => Seq::<char>::empty(),
    }
}

/// The inline style of an icon: the font size, the color where one is given,
/// and no selecting of the icon's text.
pub open spec fn icon_style(size: Option<nat>, color: Option<ColorView>) -> Seq<char> {
    font_size_rule(size) + " "@ + color_rule(color) + " user-select: none;"@
}

/// The name of the property that a color rule sets, with its colon.
pub open spec fn color_key() -> Seq<char> {
    "color:"@
}

/// Where the color rule starts in the inline style.
pub open spec fn color_rule_start(size: Option<nat>) -> nat {
    font_size_rule(size).len() + 1
}

/// No font size is written with the letter `c`.
proof fn lemma_font_size_free_of_c(size: Option<nat>)
    ensures
        free_of(font_size_rule(size) + " "@, 'c'),
{
    reveal_strlit("font-size: ");
    reveal_strlit("inherit");
    reveal_strlit("px");
    reveal_strlit(";");
    reveal_strlit(" ");
    let name = "font-size: "@;
    assert forall|i: int| 0 <= i < name.len() implies name[i] != 'c' by {
        assert(i == 0 || i == 1 || i == 2 || i == 3 || i == 4 || i == 5 || i == 6 || i == 7 || i
            == 8 || i == 9 || i == 10);
    }
    let value = font_size_value(size);
    assert forall|i: int| 0 <= i < value.len() implies value[i] != 'c' by {
        match size {
            Some(px) => {
                lemma_decimal_is_digits(px);
                if i < decimal(px).len() {
                    assert(is_digit(decimal(px)[i]));
                } else {
                    assert(i - decimal(px).len() == 0 || i - decimal(px).len() == 1);
                }
            },
            None => {
                assert(i == 0 || i == 1 || i == 2 || i == 3 || i == 4 || i == 5 || i == 6);
            },
        }
    }
    lemma_free_of_joined(name, value, 'c');
    lemma_free_of_joined(name + value, ";"@, 'c');
    lemma_free_of_joined(name + value + ";"@, " "@, 'c');
}

/// None of the named colors is written with the letter `c`.
proof fn lemma_named_color_free_of_c(color: ColorView)
    requires
        !(color is Custom),
    ensures
        free_of(color.css_color(), 'c'),
{
    reveal_strlit("rgba(0,0,0,0.54)");
    reveal_strlit("rgba(0,0,0,0.26)");
    reveal_strlit("rgba(255,255,255,1)");
    reveal_strlit("rgba(255,255,255,0.3)");
    let css = color.css_color();
    assert forall|i: int| 0 <= i < css.len() implies css[i] != 'c' by {
        assert(i == 0 || i == 1 || i == 2 || i == 3 || i == 4 || i == 5 || i == 6 || i == 7 || i
            == 8 || i == 9 || i == 10 || i == 11 || i == 12 || i == 13 || i == 14 || i == 15 || i
            == 16 || i == 17 || i == 18 || i == 19 || i == 20);
    }
}

/// The end of the inline style holds the letter `c` once, and a `t` after it.
proof fn lemma_style_end_has_no_key(i: int)
    requires
        0 <= i < " user-select: none;"@.len(),
        " user-select: none;"@[i] == 'c',
    ensures
        i + 1 < " user-select: none;"@.len(),
        " user-select: none;"@[i + 1] == 't',
{
    reveal_strlit(" user-select: none;");
    assert(i == 0 || i == 1 || i == 2 || i == 3 || i == 4 || i == 5 || i == 6 || i == 7 || i == 8
        || i == 9 || i == 10 || i == 11 || i == 12 || i == 13 || i == 14 || i == 15 || i == 16
        || i == 17 || i == 18);
}

/// The inline style begins with the font-size rule: the size in pixels
/// where one is given, `inherit` where none is.
pub proof fn lemma_style_starts_with_font_size(size: Option<nat>, color: Option<ColorView>)
    ensures
        occurs_at(icon_style(size, color), font_size_rule(size), 0),
{
    let rest = " "@ + color_rule(color) + " user-select: none;"@;
    lemma_part_occurs(Seq::<char>::empty(), font_size_rule(size), rest);
    assert(Seq::<char>::empty() + font_size_rule(size) + rest =~= icon_style(size, color));
}

/// Without a color the inline style holds no color rule.
pub proof fn lemma_no_color_no_rule(size: Option<nat>)
    ensures
        !contains_text(icon_style(size, None), color_key()),
{
    let style = icon_style(size, None);
    let head = font_size_rule(size) + " "@;
    let end = " user-select: none;"@;
    assert(style =~= head + end);
    lemma_font_size_free_of_c(size);
    reveal_strlit("color:");
    assert forall|at: int| !occurs_at(style, color_key(), at) by {
        if occurs_at(style, color_key(), at) {
            lemma_occurrence_chars(style, color_key(), at, 0);
            lemma_occurrence_chars(style, color_key(), at, 1);
            if at < head.len() {
                assert(style[at] == head[at]);
            } else {
                assert(style[at] == end[at - head.len()]);
                assert(style[at + 1] == end[at + 1 - head.len()]);
                lemma_style_end_has_no_key(at - head.len());
            }
        }
    }
}

/// With a color the inline style holds the rule of that color, and it is
/// the only color rule: the property's name stands where the rule starts and
/// nowhere else.
///
/// A custom color is written into the style as it is. One that holds the
/// property's name brings a second rule with it, so the statement leaves
/// such colors out.
pub proof fn lemma_color_one_rule(size: Option<nat>, color: ColorView)
    requires
        color matches ColorView::Custom(custom) ==> !contains_text(custom, color_key()),
    ensures
        occurs_at(
            icon_style(size, Some(color)),
            color_rule(Some(color)),
            color_rule_start(size) as int,
        ),
        forall|at: int|
            occurs_at(icon_style(size, Some(color)), color_key(), at) <==> at == color_rule_start(
                size,
            ),
{
    let style = icon_style(size, Some(color));
    let head = font_size_rule(size) + " "@;
    let css = color.css_color();
    let rule = color_rule(Some(color));
    let end = " user-select: none;"@;
    let start = color_rule_start(size) as int;
    reveal_strlit("color:");
    reveal_strlit("color: ");
    reveal_strlit(";");
    reveal_strlit(" ");
    assert(style =~= head + rule + end);
    assert(head.len() == start);
    lemma_part_occurs(head, rule, end);
    lemma_font_size_free_of_c(size);
    if !(color is Custom) {
        lemma_named_color_free_of_c(color);
    }
    assert(occurs_at(style, color_key(), start)) by {
        assert(style.subrange(start, start + 6) =~= color_key());
    }
    assert forall|at: int| occurs_at(style, color_key(), at) implies at == start by {
        lemma_occurrence_chars(style, color_key(), at, 0);
        lemma_occurrence_chars(style, color_key(), at, 1);
        let r = at - start;
        if at < start {
            assert(style[at] == head[at]);
        } else if r < rule.len() {
            assert(style[at] == rule[r]);
            if 1 <= r < 7 {
                assert(r == 1 || r == 2 || r == 3 || r == 4 || r == 5 || r == 6);
            } else if 7 <= r < 7 + css.len() {
                let j = r - 7;
                assert(rule[r] == css[j]);
                if color is Custom {
                    if j + 6 <= css.len() {
                        lemma_occurrence_within_part(head + "color: "@, css, ";"@ + end, color_key(), j);
                        assert(head + "color: "@ + css + (";"@ + end) =~= style);
                        assert(occurs_at(css, color_key(), j));
                    } else {
                        let d = css.len() - j;
                        lemma_occurrence_chars(style, color_key(), at, d);
                        assert(style[at + d] == rule[7 + css.len() as int]);
                        assert(d == 1 || d == 2 || d == 3 || d == 4 || d == 5);
                    }
                }
            } else if r == 7 + css.len() {
                assert(rule[r] == ';');
            }
        } else {
            let e = at - start - rule.len();
            assert(style[at] == end[e]);
            assert(style[at + 1] == end[e + 1]);
            lemma_style_end_has_no_key(e);
        }
    }
}

/// A custom color that holds the property's name brings a color rule of its
/// own into the inline style, after the one that the color starts.
pub proof fn lemma_custom_color_second_rule(size: Option<nat>, custom: Seq<char>, at: int)
    requires
        occurs_at(custom, color_key(), at),
    ensures
        occurs_at(
            icon_style(size, Some(ColorView::Custom(custom))),
            color_key(),
            color_rule_start(size) + 7 + at,
        ),
{
    let style = icon_style(size, Some(ColorView::Custom(custom)));
    let left = font_size_rule(size) + " "@ + "color: "@;
    let right = ";"@ + " user-select: none;"@;
    reveal_strlit("color: ");
    reveal_strlit(" ");
    assert(left + custom + right =~= style);
    lemma_occurrence_within_part(left, custom, right, color_key(), at);
}

} // verus!
