//! The configuration of the effect and how it is made from the flags of a
//! command line.

use vstd::prelude::*;

verus! {

/// A terminal colour.
#[derive(Clone, Copy, Debug, PartialEq, Eq, Structural)]
pub enum Color {
    /// The terminal's own colour.
    Reset,
    Black,
    DarkGrey,
    Red,
    DarkRed,
    Green,
    DarkGreen,
    Yellow,
    DarkYellow,
    Blue,
    DarkBlue,
    Magenta,
    DarkMagenta,
    Cyan,
    DarkCyan,
    White,
    Grey,
    /// A colour given by its red, green and blue parts.
    Rgb { r: u8, g: u8, b: u8 },
    /// A colour of the 256-colour palette.
    AnsiValue(u8),
}

/// The settings of one run of the effect.
#[derive(Clone, Copy, Debug, PartialEq, Eq, Structural)]
pub struct Config {
    /// Start the decryption after a fixed pause instead of a key press.
    pub autodecrypt: bool,
    /// Mask white space like any other character. When this is off, white
    /// space passes through.
    pub mask_blank: bool,
    /// Colour that the screen is cleared to before the effect.
    pub bg_color: Color,
    /// Colour of the revealed characters.
    pub fg_color: Color,
}

/// What a command line asks for, before any default is applied.
#[derive(Clone, Copy, Debug, PartialEq, Eq, Structural)]
pub struct Flags {
    /// The usage text was asked for.
    pub help: bool,
    /// The decryption is to start by itself.
    pub autodecrypt: bool,
    /// Blanks are to be masked too.
    pub mask_blank: bool,
    /// The background colour, if one was given.
    pub background: Option<Color>,
    /// The foreground colour, if one was given and understood.
    pub foreground: Option<Color>,
}

impl Config {
    /// The colour that the screen is cleared to when none is given.
    pub open spec fn default_background() -> Color {
        Color::Reset
    }

    /// The colour of the revealed characters when none is given.
    pub open spec fn default_foreground() -> Color {
        Color::Blue
    }

    /// The configuration that `flags` ask for: none when they ask for the
    /// usage text, else the two switches as given and each colour as given
    /// or at its default.
    pub fn from_flags(flags: Flags) -> (config: Option<Config>)
        ensures
            flags.help ==> config is None,
            !flags.help ==> config == Some(
                (Config {
                    autodecrypt: flags.autodecrypt,
                    mask_blank: flags.mask_blank,
                    bg_color: match flags.background {
                        Some(color) => color,
                        None => Config::default_background(),
                    },
                    fg_color: match flags.foreground {
                        Some(color) => color,
                        None => Config::default_foreground(),
                    },
                }),
            ),
    {
        if flags.help {
            return None;
        }
        let bg_color = match flags.background {
            Some(color) => color,
            None => Color::Reset,
        };
        let fg_color = match flags.foreground {
            Some(color) => color,
            None => Color::Blue,
        };
        Some(
            Config {
                autodecrypt: flags.autodecrypt,
                mask_blank: flags.mask_blank,
                bg_color,
                fg_color,
            },
        )
    }
}

} // verus!
