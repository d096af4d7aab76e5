use vstd::prelude::*;

use colored::Colorize;

use crate::text::same_text;

verus! {

/// The terminal color a theme color name stands for, by the name the
/// coloring crate knows it under; unknown names fall back to white.
pub open spec fn color_key(name: Seq<char>) -> Seq<char> {
    if name == "black"@ || name == "red"@ || name == "green"@ || name == "yellow"@ || name
        == "blue"@ || name == "magenta"@ || name == "cyan"@ || name == "white"@ {
        name
    } else if name == "bright_black"@ {
        "bright black"@
    } else if name == "bright_red"@ {
        "bright red"@
    } else if name == "bright_green"@ {
        "bright green"@
    } else if name == "bright_yellow"@ {
        "bright yellow"@
    } else if name == "bright_blue"@ {
        "bright blue"@
    } else if name == "bright_magenta"@ {
        "bright magenta"@
    } else if name == "bright_cyan"@ {
        "bright cyan"@
    } else if name == "bright_white"@ {
        "bright white"@
    } else {
        "white"@
    }
}

/// The coloring crate's name for a theme color name.
pub fn color_name(name: &str) -> (r: &'static str)
    ensures
        r@ == color_key(name@),
{
    if same_text(name, "black") {
        "black"
    } else if same_text(name, "red") {
        "red"
    } else if same_text(name, "green") {
        "green"
    } else if same_text(name, "yellow") {
        "yellow"
    } else if same_text(name, "blue") {
        "blue"
    } else if same_text(name, "magenta") {
        "magenta"
    } else if same_text(name, "cyan") {
        "cyan"
    } else if same_text(name, "white") {
        "white"
    } else if same_text(name, "bright_black") {
        "bright black"
    } else if same_text(name, "bright_red") {
        "bright red"
    } else if same_text(name, "bright_green") {
        "bright green"
    } else if same_text(name, "bright_yellow") {
        "bright yellow"
    } else if same_text(name, "bright_blue") {
        "bright blue"
    } else if same_text(name, "bright_magenta") {
        "bright magenta"
    } else if same_text(name, "bright_cyan") {
        "bright cyan"
    } else if same_text(name, "bright_white") {
        "bright white"
    } else {
        "white"
    }
}

/// The code that ends a colored run: ESC `[0m`.
pub open spec fn reset_code() -> Seq<char> {
    seq!['\u{1b}', '[', '0', 'm']
}

/// A style code: ESC `[`, the style and color numbers, `m`.
pub open spec fn is_style_code(s: Seq<char>) -> bool {
    s.len() >= 3 && s[0] == '\u{1b}' && s[1] == '[' && s.last() == 'm'
}

/// The text with `style` written again after each reset code inside it, so
/// that an inner reset does not end the outer color.
pub open spec fn reset_escaped(t: Seq<char>, style: Seq<char>) -> Seq<char>
    decreases t.len(),
{
    if t.len() == 0 {
        t
    } else if reset_code().is_prefix_of(t) {
        reset_code() + style + reset_escaped(t.subrange(4, t.len() as int), style)
    } else {
        seq![t[0]] + reset_escaped(t.drop_first(), style)
    }
}

/// What a colored text is written as: the text itself when coloring is off,
/// else a style code, the text with its inner resets escaped, and a reset.
pub open spec fn colored_form(text: Seq<char>, r: Seq<char>) -> bool {
    r == text || exists|style: Seq<char>|
        is_style_code(style) && r == style + reset_escaped(text, style) + reset_code()
}

/// Relies on colored's `Colorize::color` on `&str` and its `Display`: a
/// foreground color is always set, so the text is written either as it is
/// (coloring off) or as style code, escaped text and reset (coloring on).
/// Which of the two depends on the terminal and the environment.
#[verifier::external_body]
fn paint(text: &str, key: &str) -> (r: String)
    ensures
        colored_form(text@, r@),
{
    format!("{}", text.color(key))
}

/// Relies on colored's `Colorize::color` and `Colorize::bold` on `&str` and
/// its `Display`: as for `paint`, the text as it is, or style code, escaped
/// text and reset.
#[verifier::external_body]
fn paint_bold(text: &str, key: &str) -> (r: String)
    ensures
        colored_form(text@, r@),
{
    format!("{}", text.color(key).bold())
}

/// `text` in the theme color `color`.
pub fn colorize(text: &str, color: &str) -> (r: String)
    ensures
        colored_form(text@, r@),
{
    paint(text, color_name(color))
}

/// `text` in the theme color `color`, in bold.
pub fn colorize_bold(text: &str, color: &str) -> (r: String)
    ensures
        colored_form(text@, r@),
{
    paint_bold(text, color_name(color))
}

} // verus!
