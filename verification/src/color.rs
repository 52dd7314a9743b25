//! Severity-based coloring: the fixed color table and the console escape.

use vstd::prelude::*;

use crate::severity::Severity;
use colored::Colorize;

verus! {

/// A named terminal color.  The table seeds one foreground/background pair
/// per severity from this closed set.
#[derive(Clone, Copy, PartialEq, Eq, Structural, Debug)]
pub enum Color {
    Black,
    White,
    BrightBlack,
    BrightWhite,
    BrightBlue,
    BrightYellow,
    BrightRed,
}

impl Color {
    /// The ANSI foreground code digits for this color.
    pub open spec fn fg_code(self) -> Seq<char> {
        match self {
            Color::Black => "30"@,
            Color::White => "37"@,
            Color::BrightBlack => "90"@,
            Color::BrightWhite => "97"@,
            Color::BrightBlue => "94"@,
            Color::BrightYellow => "93"@,
            Color::BrightRed => "91"@,
        }
    }

    /// The full foreground escape sequence for this color.
    pub open spec fn fg_escape(self) -> Seq<char> {
        "\u{1b}["@ + self.fg_code() + "m"@
    }
}

/// The escape sequence that restores the terminal's default rendition.
pub open spec fn reset_escape() -> Seq<char> {
    "\u{1b}[0m"@
}

/// A total mapping from severity to a (foreground, background) color pair.
/// Every severity has an entry by construction, so a lookup can never fail.
#[derive(Clone, Copy, PartialEq, Eq, Debug)]
pub struct ColorTable {
    pub trace: (Color, Color),
    pub debug: (Color, Color),
    pub info: (Color, Color),
    pub warn: (Color, Color),
    pub error: (Color, Color),
}

impl ColorTable {
    /// The pair stored for a severity.
    pub open spec fn spec_lookup(self, l: Severity) -> (Color, Color) {
        match l {
            Severity::Trace => self.trace,
            Severity::Debug => self.debug,
            Severity::Info => self.info,
            Severity::Warn => self.warn,
            Severity::Error => self.error,
        }
    }

    /// The default table.
    pub open spec fn default_spec() -> ColorTable {
        ColorTable {
            trace: (Color::White, Color::BrightBlack),
            debug: (Color::BrightWhite, Color::Black),
            info: (Color::BrightBlue, Color::Black),
            warn: (Color::BrightYellow, Color::Black),
            error: (Color::BrightRed, Color::Black),
        }
    }

    /// Builds the default table, which seeds an entry for all five severities.
    pub fn defaults() -> (r: ColorTable)
        ensures
            r == ColorTable::default_spec(),
    {
        ColorTable {
            trace: (Color::White, Color::BrightBlack),
            debug: (Color::BrightWhite, Color::Black),
            info: (Color::BrightBlue, Color::Black),
            warn: (Color::BrightYellow, Color::Black),
            error: (Color::BrightRed, Color::Black),
        }
    }

    /// Looks up the color pair for a severity; total over the whole domain.
    pub fn lookup(&self, l: Severity) -> (r: (Color, Color))
        ensures
            r == self.spec_lookup(l),
    {
        match l {
            Severity::Trace => self.trace,
            Severity::Debug => self.debug,
            Severity::Info => self.info,
            Severity::Warn => self.warn,
            Severity::Error => self.error,
        }
    }
}

/// Law: the default color table is total — each of the five severities has
/// its defined, stable (foreground, background) pair.
pub proof fn lemma_default_table_total()
    ensures
        ColorTable::default_spec().spec_lookup(Severity::Trace) == (Color::White, Color::BrightBlack),
        ColorTable::default_spec().spec_lookup(Severity::Debug) == (Color::BrightWhite, Color::Black),
        ColorTable::default_spec().spec_lookup(Severity::Info) == (Color::BrightBlue, Color::Black),
        ColorTable::default_spec().spec_lookup(Severity::Warn) == (Color::BrightYellow, Color::Black),
        ColorTable::default_spec().spec_lookup(Severity::Error) == (Color::BrightRed, Color::Black),
{
}

/// Whether coloring applies to console output, plus the table itself.
#[derive(Clone, Copy, PartialEq, Eq, Debug)]
pub struct ColorOption {
    pub use_color: bool,
    pub level_to_color: ColorTable,
}

impl ColorOption {
    pub fn new(use_color: bool, level_to_color: ColorTable) -> (r: ColorOption)
        ensures
            r.use_color == use_color,
            r.level_to_color == level_to_color,
    {
        ColorOption { use_color, level_to_color }
    }

    pub fn set_use_color(&mut self, use_color: bool)
        ensures
            *final(self) == (ColorOption { use_color, ..*old(self) }),
    {
        if use_color != self.use_color {
            self.use_color = use_color;
        }
    }

    pub fn get_use_color(&self) -> (r: bool)
        ensures
            r == self.use_color,
    {
        self.use_color
    }

    /// Looks up the color pair for a severity in the owned table.
    pub fn get_color_from_level(&self, l: Severity) -> (r: (Color, Color))
        ensures
            r == self.level_to_color.spec_lookup(l),
    {
        self.level_to_color.lookup(l)
    }
}

/// Relies on colored's `Colorize::color` on `&str` and on the `Display`
/// rendering of `ColoredString`: with only a foreground color set, the
/// rendered string is either the input unchanged (when the crate's runtime
/// controls disable coloring) or the input wrapped in that color's
/// foreground escape and the reset escape.  An input free of the escape
/// character is never rewritten by the inner-reset escaping pass.
#[verifier::external_body]
pub(crate) fn colorize(s: &str, fg: Color) -> (r: String)
    requires
        forall|i: int| 0 <= i < s@.len() ==> s@[i] != '\u{1b}',
    ensures
        r@ == s@ || r@ == fg.fg_escape() + s@ + reset_escape(),
{
    let c = match fg {
        Color::Black => colored::Color::Black,
        Color::White => colored::Color::White,
        Color::BrightBlack => colored::Color::BrightBlack,
        Color::BrightWhite => colored::Color::BrightWhite,
        Color::BrightBlue => colored::Color::BrightBlue,
        Color::BrightYellow => colored::Color::BrightYellow,
        Color::BrightRed => colored::Color::BrightRed,
    };
    s.color(c).to_string()
}

} // verus!
