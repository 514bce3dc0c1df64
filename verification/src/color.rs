//! Terminal colors and text styles, and the escape sequences that select them.
//!
//! The sequences themselves are produced by the `termion` crate; this module
//! states, as spec functions, which characters each of them consists of.
use vstd::prelude::*;

verus! {

/// A color that a skin entry can default to.
#[derive(Clone, Copy, Debug, PartialEq, Eq, Structural)]
pub enum Color {
    /// The terminal's own default color.
    Reset,
    Green,
    LightBlue,
    LightCyan,
    White,
    Red,
    LightMagenta,
    Magenta,
    /// One of the 24 shades of gray, from dark (0) to light (23).
    Grayscale(u8),
}

/// The decimal digit that stands for `d`, for `d` below ten.
pub open spec fn digit_char(d: nat) -> char {
    if d == 0 {
        '0'
    } else if d == 1 {
        '1'
    } else if d == 2 {
        '2'
    } else if d == 3 {
        '3'
    } else if d == 4 {
        '4'
    } else if d == 5 {
        '5'
    } else if d == 6 {
        '6'
    } else if d == 7 {
        '7'
    } else if d == 8 {
        '8'
    } else {
        '9'
    }
}

/// `n` written in base ten, without leading zeros.
pub open spec fn decimal(n: nat) -> Seq<char>
    decreases n,
{
    if n < 10 {
        seq![digit_char(n)]
    } else {
        decimal(n / 10).push(digit_char(n % 10))
    }
}

/// The index, in the 256-color palette, of the gray of the given shade.
pub open spec fn gray_index(shade: u8) -> nat {
    (232 + shade) as nat
}

/// The sequence that makes `c` the foreground color.
pub open spec fn fg_sequence(c: Color) -> Seq<char> {
    match c {
        Color::Reset => "\x1b[39m"@,
        Color::Green => "\x1b[38;5;2m"@,
        Color::LightBlue => "\x1b[38;5;12m"@,
        Color::LightCyan => "\x1b[38;5;14m"@,
        Color::White => "\x1b[38;5;7m"@,
        Color::Red => "\x1b[38;5;1m"@,
        Color::LightMagenta => "\x1b[38;5;13m"@,
        Color::Magenta => "\x1b[38;5;5m"@,
        Color::Grayscale(shade) => "\x1b[38;5;"@ + decimal(gray_index(shade)) + "m"@,
    }
}

/// The sequence that makes `c` the background color.
pub open spec fn bg_sequence(c: Color) -> Seq<char> {
    match c {
        Color::Reset => "\x1b[49m"@,
        Color::Green => "\x1b[48;5;2m"@,
        Color::LightBlue => "\x1b[48;5;12m"@,
        Color::LightCyan => "\x1b[48;5;14m"@,
        Color::White => "\x1b[48;5;7m"@,
        Color::Red => "\x1b[48;5;1m"@,
        Color::LightMagenta => "\x1b[48;5;13m"@,
        Color::Magenta => "\x1b[48;5;5m"@,
        Color::Grayscale(shade) => "\x1b[48;5;"@ + decimal(gray_index(shade)) + "m"@,
    }
}

/// The sequence that switches bold text on.
pub open spec fn bold_sequence() -> Seq<char> {
    "\x1b[1m"@
}

/// The sequence that switches italic text on.
pub open spec fn italic_sequence() -> Seq<char> {
    "\x1b[3m"@
}

/// The sequence that switches every text style off.
pub open spec fn style_reset_sequence() -> Seq<char> {
    "\x1b[m"@
}

impl Color {
    /// A shade of gray exists only below 24.
    pub open spec fn wf(self) -> bool {
        match self {
            Color::Grayscale(shade) => shade < 24,
            _ => true,
        }
    }

    /// The escape sequence that makes this color the foreground color.
    pub fn fg(self) -> (s: String)
        requires
            self.wf(),
        ensures
            s@ == fg_sequence(self),
    {
        match self {
            Color::Reset => fg_reset(),
            Color::Green => fg_green(),
            Color::LightBlue => fg_light_blue(),
            Color::LightCyan => fg_light_cyan(),
            Color::White => fg_white(),
            Color::Red => fg_red(),
            Color::LightMagenta => fg_light_magenta(),
            Color::Magenta => fg_magenta(),
            Color::Grayscale(shade) => fg_grayscale(shade),
        }
    }

    /// The escape sequence that makes this color the background color.
    pub fn bg(self) -> (s: String)
        requires
            self.wf(),
        ensures
            s@ == bg_sequence(self),
    {
        match self {
            Color::Reset => bg_reset(),
            Color::Green => bg_green(),
            Color::LightBlue => bg_light_blue(),
            Color::LightCyan => bg_light_cyan(),
            Color::White => bg_white(),
            Color::Red => bg_red(),
            Color::LightMagenta => bg_light_magenta(),
            Color::Magenta => bg_magenta(),
            Color::Grayscale(shade) => bg_grayscale(shade),
        }
    }
}

/// Trusted: formats termion's `color::Fg(color::Reset)`, whose `Display` writes the
/// constant `ESC [ 39 m`.
#[verifier::external_body]
fn fg_reset() -> (s: String)
    ensures
        s@ == fg_sequence(Color::Reset),
{
    format!("{}", termion::color::Fg(termion::color::Reset))
}

/// Trusted: formats termion's `color::Fg(color::Green)`, whose `Display` writes the
/// constant `ESC [ 38 ; 5 ; 2 m`.
#[verifier::external_body]
fn fg_green() -> (s: String)
    ensures
        s@ == fg_sequence(Color::Green),
{
    format!("{}", termion::color::Fg(termion::color::Green))
}

/// Trusted: formats termion's `color::Fg(color::LightBlue)`, whose `Display` writes the
/// constant `ESC [ 38 ; 5 ; 12 m`.
#[verifier::external_body]
fn fg_light_blue() -> (s: String)
    ensures
        s@ == fg_sequence(Color::LightBlue),
{
    format!("{}", termion::color::Fg(termion::color::LightBlue))
}

/// Trusted: formats termion's `color::Fg(color::LightCyan)`, whose `Display` writes the
/// constant `ESC [ 38 ; 5 ; 14 m`.
#[verifier::external_body]
fn fg_light_cyan() -> (s: String)
    ensures
        s@ == fg_sequence(Color::LightCyan),
{
    format!("{}", termion::color::Fg(termion::color::LightCyan))
}

/// Trusted: formats termion's `color::Fg(color::White)`, whose `Display` writes the
/// constant `ESC [ 38 ; 5 ; 7 m`.
#[verifier::external_body]
fn fg_white() -> (s: String)
    ensures
        s@ == fg_sequence(Color::White),
{
    format!("{}", termion::color::Fg(termion::color::White))
}

/// Trusted: formats termion's `color::Fg(color::Red)`, whose `Display` writes the
/// constant `ESC [ 38 ; 5 ; 1 m`.
#[verifier::external_body]
fn fg_red() -> (s: String)
    ensures
        s@ == fg_sequence(Color::Red),
{
    format!("{}", termion::color::Fg(termion::color::Red))
}

/// Trusted: formats termion's `color::Fg(color::LightMagenta)`, whose `Display` writes the
/// constant `ESC [ 38 ; 5 ; 13 m`.
#[verifier::external_body]
fn fg_light_magenta() -> (s: String)
    ensures
        s@ == fg_sequence(Color::LightMagenta),
{
    format!("{}", termion::color::Fg(termion::color::LightMagenta))
}

/// Trusted: formats termion's `color::Fg(color::Magenta)`, whose `Display` writes the
/// constant `ESC [ 38 ; 5 ; 5 m`.
#[verifier::external_body]
fn fg_magenta() -> (s: String)
    ensures
        s@ == fg_sequence(Color::Magenta),
{
    format!("{}", termion::color::Fg(termion::color::Magenta))
}

/// Trusted: formats termion's `color::Fg(color::AnsiValue::grayscale(shade))`.
/// `grayscale` adds the shade to 232, which is in range for a shade below 24, and
/// `Display` writes `ESC [ 38 ; 5 ;`, that number in base ten, and `m`.
#[verifier::external_body]
fn fg_grayscale(shade: u8) -> (s: String)
    requires
        shade < 24,
    ensures
        s@ == fg_sequence(Color::Grayscale(shade)),
{
    format!("{}", termion::color::Fg(termion::color::AnsiValue::grayscale(shade)))
}

/// Trusted: formats termion's `color::Bg(color::Reset)`, whose `Display` writes the
/// constant `ESC [ 49 m`.
#[verifier::external_body]
fn bg_reset() -> (s: String)
    ensures
        s@ == bg_sequence(Color::Reset),
{
    format!("{}", termion::color::Bg(termion::color::Reset))
}

/// Trusted: formats termion's `color::Bg(color::Green)`, whose `Display` writes the
/// constant `ESC [ 48 ; 5 ; 2 m`.
#[verifier::external_body]
fn bg_green() -> (s: String)
    ensures
        s@ == bg_sequence(Color::Green),
{
    format!("{}", termion::color::Bg(termion::color::Green))
}

/// Trusted: formats termion's `color::Bg(color::LightBlue)`, whose `Display` writes the
/// constant `ESC [ 48 ; 5 ; 12 m`.
#[verifier::external_body]
fn bg_light_blue() -> (s: String)
    ensures
        s@ == bg_sequence(Color::LightBlue),
{
    format!("{}", termion::color::Bg(termion::color::LightBlue))
}

/// Trusted: formats termion's `color::Bg(color::LightCyan)`, whose `Display` writes the
/// constant `ESC [ 48 ; 5 ; 14 m`.
#[verifier::external_body]
fn bg_light_cyan() -> (s: String)
    ensures
        s@ == bg_sequence(Color::LightCyan),
{
    format!("{}", termion::color::Bg(termion::color::LightCyan))
}

/// Trusted: formats termion's `color::Bg(color::White)`, whose `Display` writes the
/// constant `ESC [ 48 ; 5 ; 7 m`.
#[verifier::external_body]
fn bg_white() -> (s: String)
    ensures
        s@ == bg_sequence(Color::White),
{
    format!("{}", termion::color::Bg(termion::color::White))
}

/// Trusted: formats termion's `color::Bg(color::Red)`, whose `Display` writes the
/// constant `ESC [ 48 ; 5 ; 1 m`.
#[verifier::external_body]
fn bg_red() -> (s: String)
    ensures
        s@ == bg_sequence(Color::Red),
{
    format!("{}", termion::color::Bg(termion::color::Red))
}

/// Trusted: formats termion's `color::Bg(color::LightMagenta)`, whose `Display` writes the
/// constant `ESC [ 48 ; 5 ; 13 m`.
#[verifier::external_body]
fn bg_light_magenta() -> (s: String)
    ensures
        s@ == bg_sequence(Color::LightMagenta),
{
    format!("{}", termion::color::Bg(termion::color::LightMagenta))
}

/// Trusted: formats termion's `color::Bg(color::Magenta)`, whose `Display` writes the
/// constant `ESC [ 48 ; 5 ; 5 m`.
#[verifier::external_body]
fn bg_magenta() -> (s: String)
    ensures
        s@ == bg_sequence(Color::Magenta),
{
    format!("{}", termion::color::Bg(termion::color::Magenta))
}

/// Trusted: formats termion's `color::Bg(color::AnsiValue::grayscale(shade))`.
/// `grayscale` adds the shade to 232, which is in range for a shade below 24, and
/// `Display` writes `ESC [ 48 ; 5 ;`, that number in base ten, and `m`.
#[verifier::external_body]
fn bg_grayscale(shade: u8) -> (s: String)
    requires
        shade < 24,
    ensures
        s@ == bg_sequence(Color::Grayscale(shade)),
{
    format!("{}", termion::color::Bg(termion::color::AnsiValue::grayscale(shade)))
}

/// Trusted: formats termion's `style::Bold`, whose `Display` writes the constant
/// `ESC [ 1 m`.
#[verifier::external_body]
pub(crate) fn bold() -> (s: String)
    ensures
        s@ == bold_sequence(),
{
    format!("{}", termion::style::Bold)
}

/// Trusted: formats termion's `style::Italic`, whose `Display` writes the constant
/// `ESC [ 3 m`.
#[verifier::external_body]
pub(crate) fn italic() -> (s: String)
    ensures
        s@ == italic_sequence(),
{
    format!("{}", termion::style::Italic)
}

/// Trusted: formats termion's `style::Reset`, whose `Display` writes the constant
/// `ESC [ m`.
#[verifier::external_body]
pub(crate) fn style_reset() -> (s: String)
    ensures
        s@ == style_reset_sequence(),
{
    format!("{}", termion::style::Reset)
}

} // verus!
