//! Terminal styling, treated as an opaque capability.
//!
//! Whether a styled string comes back as the bare text or as an
//! ANSI-escape-wrapped form depends on process-global state (a manual
//! override, environment variables, whether the stream is a terminal), so
//! nothing more is assumed of the outcome than the disjunction below: the
//! result is the text itself, or the (unspecified) styled form of exactly
//! that text under exactly the requested attributes.

use vstd::prelude::*;

use colored::Colorize;

verus! {

/// A foreground color: terminal white, or a 24-bit RGB value.
#[derive(Clone, Copy)]
pub enum Color {
    White,
    Rgb(u8, u8, u8),
}

/// A set of styling attributes for one stretch of text.
#[derive(Clone, Copy)]
pub struct Style {
    pub color: Option<Color>,
    pub bold: bool,
    pub underline: bool,
    pub dimmed: bool,
}

/// The red component of an optional color (zero when absent or white).
pub open spec fn color_red(c: Option<Color>) -> u8 {
    match c {
        Some(Color::Rgb(r, _, _)) => r,
        _ => 0,
    }
}

/// The green component of an optional color (zero when absent or white).
pub open spec fn color_green(c: Option<Color>) -> u8 {
    match c {
        Some(Color::Rgb(_, g, _)) => g,
        _ => 0,
    }
}

/// The blue component of an optional color (zero when absent or white).
pub open spec fn color_blue(c: Option<Color>) -> u8 {
    match c {
        Some(Color::Rgb(_, _, b)) => b,
        _ => 0,
    }
}

pub uninterp spec fn ansi_styled(
    out: Seq<char>,
    text: Seq<char>,
    has_color: bool,
    white: bool,
    red: u8,
    green: u8,
    blue: u8,
    bold: bool,
    underline: bool,
    dimmed: bool,
) -> bool;

/// Holds when `out` is a rendering of `text` under `st`: either the text
/// unchanged, or an ANSI-styled form of that text with those attributes.
pub open spec fn styled_or_plain(out: Seq<char>, text: Seq<char>, st: Style) -> bool {
    out == text || ansi_styled(
        out,
        text,
        st.color is Some,
        st.color == Some(Color::White),
        color_red(st.color),
        color_green(st.color),
        color_blue(st.color),
        st.bold,
        st.underline,
        st.dimmed,
    )
}

/// Relies on colored's `Colorize` builders and `Display for ColoredString`:
/// the display of a colored string is either the input text itself (when
/// colorization is off or no attribute is set) or an ANSI-styled form of
/// that same input under the chosen color and styles.
#[verifier::external_body]
pub fn paint(text: &str, st: &Style) -> (out: String)
    ensures
        out@ == text@ || ansi_styled(
            out@,
            text@,
            st.color is Some,
            st.color == Some(Color::White),
            color_red(st.color),
            color_green(st.color),
            color_blue(st.color),
            st.bold,
            st.underline,
            st.dimmed,
        ),
        styled_or_plain(out@, text@, *st),
{
    let mut cs: colored::ColoredString = match st.color {
        Some(Color::White) => text.color(colored::Color::White),
        Some(Color::Rgb(r, g, b)) => text.color(colored::Color::TrueColor { r, g, b }),
        None => colored::ColoredString::from(text),
    };
    if st.bold {
        cs = cs.bold();
    }
    if st.underline {
        cs = cs.underline();
    }
    if st.dimmed {
        cs = cs.dimmed();
    }
    cs.to_string()
}

/// The style of a span's identifier and of an event's target: the bold
/// variant of the kind's color pair, in bold face.
pub open spec fn spec_bold_style(c: Color) -> Style {
    Style { color: Some(c), bold: true, underline: false, dimmed: false }
}

/// The style of a rendered span body and of an event's fields: the base
/// variant of the kind's color pair, with no further attribute.
pub open spec fn spec_base_style(c: Color) -> Style {
    Style { color: Some(c), bold: false, underline: false, dimmed: false }
}

/// The style of a lifecycle message: the bold variant of the span's color
/// pair, in bold underlined face.
pub open spec fn spec_message_style(c: Color) -> Style {
    Style { color: Some(c), bold: true, underline: true, dimmed: false }
}

/// The style of the date and time segments of a timestamp.
pub open spec fn spec_white_bold() -> Style {
    Style { color: Some(Color::White), bold: true, underline: false, dimmed: false }
}

/// The style of the whole timestamp: dimmed, with no color of its own.
pub open spec fn spec_dimmed() -> Style {
    Style { color: None, bold: false, underline: false, dimmed: true }
}

/// Builds the identifier/target style for a color.
pub fn bold_style(c: Color) -> (s: Style)
    ensures
        s == spec_bold_style(c),
{
    Style { color: Some(c), bold: true, underline: false, dimmed: false }
}

/// Builds the body/fields style for a color.
pub fn base_style(c: Color) -> (s: Style)
    ensures
        s == spec_base_style(c),
{
    Style { color: Some(c), bold: false, underline: false, dimmed: false }
}

/// Builds the lifecycle-message style for a color.
pub fn message_style(c: Color) -> (s: Style)
    ensures
        s == spec_message_style(c),
{
    Style { color: Some(c), bold: true, underline: true, dimmed: false }
}

/// Builds the timestamp-segment style.
pub fn white_bold_style() -> (s: Style)
    ensures
        s == spec_white_bold(),
{
    Style { color: Some(Color::White), bold: true, underline: false, dimmed: false }
}

/// Builds the whole-timestamp style.
pub fn dimmed_style() -> (s: Style)
    ensures
        s == spec_dimmed(),
{
    Style { color: None, bold: false, underline: false, dimmed: true }
}

} // verus!
