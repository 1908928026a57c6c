//! Styles, and the grammar in which the configuration writes them.
//!
//! A style is written as a foreground, then optionally `on` and a
//! background: `underline red on blue`. The words `bold`, `underline` and
//! `inverse` add the modifier of that name on either side.

use crate::text::{
    chars_of, contains, has, index_of, is, number, parse_number, position, replace_literal,
    replaced, slice, string_of, strip_leading, to_ascii_lowercase, trim, trimmed,
    without_leading, lower,
};
use vstd::prelude::*;
use vstd::string::StringSliceAdditionalSpecFns;
use vstd::utf8::encode_utf8;

verus! {

/// A colour of the terminal.
#[derive(Debug, Copy, Clone, PartialEq, Eq, Hash, Structural)]
pub enum Color {
    Reset,
    Black,
    Red,
    Green,
    Yellow,
    Blue,
    Magenta,
    Cyan,
    Gray,
    DarkGray,
    LightRed,
    LightGreen,
    LightYellow,
    LightBlue,
    LightMagenta,
    LightCyan,
    White,
    /// Red, green and blue.
    Rgb(u8, u8, u8),
    /// A colour of the terminal's table of 256.
    Indexed(u8),
}

/// Ways of setting text off, one bit each.
#[derive(Debug, Copy, Clone, PartialEq, Eq, Hash, Structural)]
pub struct Modifier {
    pub bits: u16,
}

impl Modifier {
    pub const BOLD: u16 = 1;

    pub const DIM: u16 = 2;

    pub const ITALIC: u16 = 4;

    pub const UNDERLINED: u16 = 8;

    pub const SLOW_BLINK: u16 = 16;

    pub const RAPID_BLINK: u16 = 32;

    pub const REVERSED: u16 = 64;

    pub const HIDDEN: u16 = 128;

    pub const CROSSED_OUT: u16 = 256;

    /// No modifier.
    pub open spec fn none() -> Modifier {
        Modifier { bits: 0 }
    }

    /// The modifiers of `self` together with those of the mask.
    pub open spec fn with(self, mask: u16) -> Modifier {
        Modifier { bits: self.bits | mask }
    }

    /// The modifiers of `self` that are not in the mask.
    pub open spec fn without(self, mask: u16) -> Modifier {
        Modifier { bits: self.bits & !mask }
    }

    /// Whether every modifier of the mask is among those of `self`.
    pub open spec fn has(self, mask: u16) -> bool {
        self.bits & mask == mask
    }

    /// No modifier.
    pub fn empty() -> (m: Modifier)
        ensures
            m == Modifier::none(),
    {
        Modifier { bits: 0 }
    }

    /// The modifiers of a mask.
    pub fn from_bits(mask: u16) -> (m: Modifier)
        ensures
            m.bits == mask,
    {
        Modifier { bits: mask }
    }

    /// The modifiers of `self` together with those of `other`.
    pub fn union(self, other: Modifier) -> (m: Modifier)
        ensures
            m == self.with(other.bits),
    {
        Modifier { bits: self.bits | other.bits }
    }

    /// The modifiers of `self` that `other` does not hold.
    pub fn difference(self, other: Modifier) -> (m: Modifier)
        ensures
            m == self.without(other.bits),
    {
        Modifier { bits: self.bits & !other.bits }
    }

    /// Adds the modifiers of the mask.
    pub fn insert(&mut self, mask: u16)
        ensures
            *final(self) == old(self).with(mask),
    {
        self.bits = self.bits | mask;
    }

    /// Computes [`Modifier::has`].
    pub fn contains(&self, mask: u16) -> (r: bool)
        ensures
            r == self.has(mask),
    {
        self.bits & mask == mask
    }
}

/// How text is drawn: the colours of the text and of its ground, where they
/// are set, and the modifiers that the style adds and takes away.
#[derive(Debug, Copy, Clone, PartialEq, Eq, Hash, Structural)]
pub struct Style {
    pub fg: Option<Color>,
    pub bg: Option<Color>,
    pub add_modifier: Modifier,
    pub sub_modifier: Modifier,
}

impl Default for Style {
    fn default() -> (style: Style)
        ensures
            style == Style::plain(),
    {
        Style { fg: None, bg: None, add_modifier: Modifier::empty(),
            sub_modifier: Modifier::empty() }
    }
}

impl Style {
    /// The style that sets nothing.
    pub open spec fn plain() -> Style {
        Style { fg: None, bg: None, add_modifier: Modifier::none(), sub_modifier: Modifier::none() }
    }

    /// The style with the modifiers of `modifier` added: they join those that
    /// the style adds, and leave those that it takes away.
    pub open spec fn adding(self, modifier: Modifier) -> Style {
        Style {
            add_modifier: self.add_modifier.with(modifier.bits),
            sub_modifier: self.sub_modifier.without(modifier.bits),
            ..self
        }
    }

    /// The style with the colour of the text set.
    pub fn fg(self, color: Color) -> (style: Style)
        ensures
            style == (Style { fg: Some(color), ..self }),
    {
        Style {
            fg: Some(color),
            bg: self.bg,
            add_modifier: self.add_modifier,
            sub_modifier: self.sub_modifier,
        }
    }

    /// The style with the colour of the ground set.
    pub fn bg(self, color: Color) -> (style: Style)
        ensures
            style == (Style { bg: Some(color), ..self }),
    {
        Style {
            fg: self.fg,
            bg: Some(color),
            add_modifier: self.add_modifier,
            sub_modifier: self.sub_modifier,
        }
    }

    /// Computes [`Style::adding`].
    pub fn add_modifier(self, modifier: Modifier) -> (style: Style)
        ensures
            style == self.adding(modifier),
    {
        Style {
            fg: self.fg,
            bg: self.bg,
            add_modifier: self.add_modifier.union(modifier),
            sub_modifier: self.sub_modifier.difference(modifier),
        }
    }
}

/// The words of one side of a style without those that only set a modifier
/// or a brightness, and with `grey` spelt `gray`.
pub open spec fn color_words(s: Seq<char>) -> Seq<char> {
    replaced(
        replaced(
            replaced(
                replaced(replaced(s, "grey"@, "gray"@), "bright "@, ""@),
                "bold "@,
                ""@,
            ),
            "underline "@,
            ""@,
        ),
        "inverse "@,
        ""@,
    )
}

/// The modifiers that one side of a style names: `underline`, `bold` and
/// `inverse`, wherever the word stands.
pub open spec fn color_modifiers(s: Seq<char>) -> Modifier {
    let underlined = if contains(s, "underline"@) {
        Modifier::none().with(Modifier::UNDERLINED)
    } else {
        Modifier::none()
    };
    let bold = if contains(s, "bold"@) {
        underlined.with(Modifier::BOLD)
    } else {
        underlined
    };
    if contains(s, "inverse"@) {
        bold.with(Modifier::REVERSED)
    } else {
        bold
    }
}

/// The number that follows a word: what is left of the text without the
/// leading copies of the word, read as a byte; 0 where that is no byte.
pub open spec fn number_after(s: Seq<char>, word: Seq<char>) -> u8 {
    match number(without_leading(s, word), 255) {
        Ok(n) => n as u8,
        Err(_) => 0,
    }
}

/// The value of a byte that is a decimal digit; 0 for any other byte.
pub open spec fn digit_or_zero(b: u8) -> int {
    if 0x30 <= b <= 0x39 {
        b - 0x30
    } else {
        0
    }
}

/// The colour that a name of the basic sixteen stands for.
pub open spec fn basic_color(s: Seq<char>) -> Option<u8> {
    if s == "bold black"@ {
        Some(8u8)
    } else if s == "bold red"@ {
        Some(9u8)
    } else if s == "bold green"@ {
        Some(10u8)
    } else if s == "bold yellow"@ {
        Some(11u8)
    } else if s == "bold blue"@ {
        Some(12u8)
    } else if s == "bold magenta"@ {
        Some(13u8)
    } else if s == "bold cyan"@ {
        Some(14u8)
    } else if s == "bold white"@ {
        Some(15u8)
    } else if s == "black"@ {
        Some(0u8)
    } else if s == "red"@ {
        Some(1u8)
    } else if s == "green"@ {
        Some(2u8)
    } else if s == "yellow"@ {
        Some(3u8)
    } else if s == "blue"@ {
        Some(4u8)
    } else if s == "magenta"@ {
        Some(5u8)
    } else if s == "cyan"@ {
        Some(6u8)
    } else if s == "white"@ {
        Some(7u8)
    } else {
        None
    }
}

/// The place in the table of 256 colours that a text names, white space at
/// its ends aside.
///
/// * `color` and a number: that place; `bright ` may stand before it.
/// * `gray` and a number: that step of the grey ramp, which begins at 232.
/// * `rgb` and three digits in the fourth, fifth and sixth byte of the
///   text as UTF-8: that place of the colour cube, which begins at 16. A
///   byte that is no digit counts as 0, and a text of fewer than six bytes
///   names nothing.
/// * One of the eight names, or `bold` and one of them.
///
/// Sums that leave the table wrap round.
pub open spec fn named_color(text: Seq<char>) -> Option<Color> {
    let s = trimmed(text);
    if contains(s, "bright color"@) {
        Some(Color::Indexed(number_after(without_leading(s, "bright "@), "color"@)))
    } else if contains(s, "color"@) {
        Some(Color::Indexed(number_after(s, "color"@)))
    } else if contains(s, "gray"@) {
        Some(Color::Indexed(((232 + number_after(s, "gray"@)) % 256) as u8))
    } else if contains(s, "rgb"@) {
        let bytes = encode_utf8(s);
        if bytes.len() < 6 {
            None
        } else {
            Some(
                Color::Indexed(
                    ((16 + digit_or_zero(bytes[3]) * 36 + digit_or_zero(bytes[4]) * 6
                        + digit_or_zero(bytes[5])) % 256) as u8,
                ),
            )
        }
    } else {
        match basic_color(s) {
            Some(index) => Some(Color::Indexed(index)),
            None => None,
        }
    }
}

/// The style that a line names. The line is cut before the first `on `,
/// capital letters counting as small ones there; what stands before is the
/// foreground, and what follows, without every `on `, the background. The
/// modifiers of both sides are added.
pub open spec fn named_style(line: Seq<char>) -> Style {
    let cut = index_of(line.map_values(|c: char| lower(c)), "on "@);
    let foreground = line.subrange(0, cut);
    let background = replaced(line.subrange(cut, line.len() as int), "on "@, ""@);
    let with_fg = match named_color(color_words(foreground)) {
        Some(color) => Style { fg: Some(color), ..Style::plain() },
        None => Style::plain(),
    };
    let with_bg = match named_color(color_words(background)) {
        Some(color) => Style { bg: Some(color), ..with_fg },
        None => with_fg,
    };
    with_bg.adding(
        Modifier { bits: color_modifiers(foreground).bits | color_modifiers(background).bits },
    )
}

/// Reads the number that follows the leading copies of a word.
fn parse_number_after(s: &Vec<char>, word: &str) -> (n: u8)
    ensures
        n == number_after(s@, word@),
{
    match parse_number(&strip_leading(s, word), 255) {
        Ok(n) => n as u8,
        Err(_) => 0,
    }
}

/// Computes [`digit_or_zero`].
fn digit_value(b: u8) -> (d: u32)
    ensures
        d == digit_or_zero(b),
        d <= 9,
{
    if 0x30 <= b && b <= 0x39 {
        (b - 0x30) as u32
    } else {
        0
    }
}

/// Reads one of the basic sixteen colours.
fn parse_basic_color(s: &Vec<char>) -> (r: Option<u8>)
    ensures
        r == basic_color(s@),
{
    if is(s, "bold black") {
        Some(8)
    } else if is(s, "bold red") {
        Some(9)
    } else if is(s, "bold green") {
        Some(10)
    } else if is(s, "bold yellow") {
        Some(11)
    } else if is(s, "bold blue") {
        Some(12)
    } else if is(s, "bold magenta") {
        Some(13)
    } else if is(s, "bold cyan") {
        Some(14)
    } else if is(s, "bold white") {
        Some(15)
    } else if is(s, "black") {
        Some(0)
    } else if is(s, "red") {
        Some(1)
    } else if is(s, "green") {
        Some(2)
    } else if is(s, "yellow") {
        Some(3)
    } else if is(s, "blue") {
        Some(4)
    } else if is(s, "magenta") {
        Some(5)
    } else if is(s, "cyan") {
        Some(6)
    } else if is(s, "white") {
        Some(7)
    } else {
        None
    }
}

/// Reads a colour from its characters.
fn parse_color_chars(text: &Vec<char>) -> (r: Option<Color>)
    ensures
        r == named_color(text@),
{
    let s = trim(text);
    if has(&s, "bright color") {
        let rest = strip_leading(&s, "bright ");
        Some(Color::Indexed(parse_number_after(&rest, "color")))
    } else if has(&s, "color") {
        Some(Color::Indexed(parse_number_after(&s, "color")))
    } else if has(&s, "gray") {
        let step: u32 = parse_number_after(&s, "gray") as u32;
        Some(Color::Indexed(((232 + step) % 256) as u8))
    } else if has(&s, "rgb") {
        let text = string_of(&s);
        let bytes = text.as_str().as_bytes();
        if bytes.len() < 6 {
            None
        } else {
            let red = digit_value(bytes[3]);
            let green = digit_value(bytes[4]);
            let blue = digit_value(bytes[5]);
            Some(Color::Indexed(((16 + red * 36 + green * 6 + blue) % 256) as u8))
        }
    } else {
        match parse_basic_color(&s) {
            Some(index) => Some(Color::Indexed(index)),
            None => None,
        }
    }
}

/// Reads a colour.
pub fn parse_color(s: &str) -> (r: Option<Color>)
    ensures
        r == named_color(s@),
{
    let chars = chars_of(s);
    parse_color_chars(&chars)
}

/// Splits one side of a style into the words of its colour and its
/// modifiers.
fn process_color_chars(color_str: &Vec<char>) -> (r: (Vec<char>, Modifier))
    ensures
        r.0@ == color_words(color_str@),
        r.1 == color_modifiers(color_str@),
{
    let color = replace_literal(
        &replace_literal(
            &replace_literal(
                &replace_literal(&replace_literal(color_str, "grey", "gray"), "bright ", ""),
                "bold ",
                "",
            ),
            "underline ",
            "",
        ),
        "inverse ",
        "",
    );
    let mut modifiers = Modifier::empty();
    if has(color_str, "underline") {
        modifiers.insert(Modifier::UNDERLINED);
    }
    if has(color_str, "bold") {
        modifiers.insert(Modifier::BOLD);
    }
    if has(color_str, "inverse") {
        modifiers.insert(Modifier::REVERSED);
    }
    (color, modifiers)
}

/// Splits one side of a style into the words of its colour and its
/// modifiers.
pub fn process_color_string(color_str: &str) -> (r: (String, Modifier))
    ensures
        r.0@ == color_words(color_str@),
        r.1 == color_modifiers(color_str@),
{
    let chars = chars_of(color_str);
    let (color, modifiers) = process_color_chars(&chars);
    (string_of(&color), modifiers)
}

/// Reads a style.
pub fn parse_style(line: &str) -> (style: Style)
    ensures
        style == named_style(line@),
{
    let chars = chars_of(line);
    let on = chars_of("on ");
    let cut = position(&to_ascii_lowercase(&chars), &on);
    let foreground = process_color_chars(&slice(&chars, 0, cut));
    let background = process_color_chars(
        &replace_literal(&slice(&chars, cut, chars.len()), "on ", ""),
    );
    let mut style = Style::default();
    if let Some(fg) = parse_color_chars(&foreground.0) {
        style = style.fg(fg);
    }
    if let Some(bg) = parse_color_chars(&background.0) {
        style = style.bg(bg);
    }
    style.add_modifier(Modifier::from_bits(foreground.1.bits | background.1.bits))
}

} // verus!
