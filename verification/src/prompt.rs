//! Prompt rendering: the ZSH escape vocabulary the prompt is written in,
//! and the sections of the left and right prompt sides as plain text.

use vstd::prelude::*;

pub mod left;
pub mod right;

verus! {

/// Represents the terminal size unit.
pub type Size = u16;

/// The symbol used in ZSH to escape the percentage sign.
pub const ZSH_PERCENTAGE_SYMBOL: &'static str = "%%";

/// The symbol used in ZSH that gets replaced by the exit code of the last
/// command.
pub const ZSH_EXIT_CODE: &'static str = "%?";

/// The symbol used in ZSH that gets replaced by the total of background
/// jobs.
pub const ZSH_JOBS_COUNT: &'static str = "%j";

/// Contains a subset of the available ANSI colors that can be used in ZSH.
#[derive(Debug, Clone, Copy, PartialEq, Eq, Structural)]
pub enum Color {
    /// Refers to the dark red color (ANSI 1).
    Red,
    /// Refers to the dark green color (ANSI 2).
    Green,
    /// Refers to the dark yellow color (ANSI 3).
    Yellow,
    /// Refers to the dark blue color (ANSI 4).
    Blue,
    /// Refers to the dark magenta color (ANSI 5).
    Magenta,
    /// Refers to the dark cyan color (ANSI 6).
    Cyan,
}

/// The ANSI value correspondent to a color.
pub open spec fn spec_ansi(color: Color) -> u8 {
    match color {
        Color::Red => 1,
        Color::Green => 2,
        Color::Yellow => 3,
        Color::Blue => 4,
        Color::Magenta => 5,
        Color::Cyan => 6,
    }
}

/// The ANSI value of a color as the single digit it is written with.
pub open spec fn spec_color_code(color: Color) -> Seq<char> {
    match color {
        Color::Red => "1"@,
        Color::Green => "2"@,
        Color::Yellow => "3"@,
        Color::Blue => "4"@,
        Color::Magenta => "5"@,
        Color::Cyan => "6"@,
    }
}

impl Color {
    /// Gets the ANSI value correspondent to the color.
    pub fn ansi(&self) -> (r: u8)
        ensures
            r == spec_ansi(*self),
    {
        match self {
            Color::Red => 1,
            Color::Green => 2,
            Color::Yellow => 3,
            Color::Blue => 4,
            Color::Magenta => 5,
            Color::Cyan => 6,
        }
    }
}

/// The digit a color is written with is the decimal rendering of its ANSI
/// value.
pub proof fn lemma_color_code_is_ansi_decimal(color: Color)
    ensures
        spec_color_code(color) == crate::text::spec_decimal(spec_ansi(color) as nat),
{
    reveal_strlit("1");
    reveal_strlit("2");
    reveal_strlit("3");
    reveal_strlit("4");
    reveal_strlit("5");
    reveal_strlit("6");
    assert(spec_color_code(color) =~= crate::text::spec_decimal(spec_ansi(color) as nat));
}

/// A symbol wrapped in the ZSH syntax that paints it with a foreground
/// color.
pub open spec fn spec_color_symbol(symbol: Seq<char>, color: Color) -> Seq<char> {
    "%F{"@ + spec_color_code(color) + "}"@ + symbol + "%f"@
}

/// Wraps a symbol using the specified foreground color using the ZSH
/// syntax.
pub fn color_symbol(symbol: &str, color: Color) -> (r: String)
    ensures
        r@ == spec_color_symbol(symbol@, color),
{
    let mut s = String::from_str("%F{");
    s.append(
        match color {
            Color::Red => "1",
            Color::Green => "2",
            Color::Yellow => "3",
            Color::Blue => "4",
            Color::Magenta => "5",
            Color::Cyan => "6",
        },
    );
    s.append("}");
    s.append(symbol);
    s.append("%f");
    s
}

/// A symbol wrapped in the ZSH syntax that shows it only when the user is
/// `root`.
pub open spec fn spec_show_when_root(symbol: Seq<char>) -> Seq<char> {
    "%(#."@ + symbol + ".)"@
}

/// Wraps a symbol to be shown only when the user is `root` using the ZSH
/// syntax.
pub fn show_symbol_when_root(symbol: &str) -> (r: String)
    ensures
        r@ == spec_show_when_root(symbol@),
{
    let mut s = String::from_str("%(#.");
    s.append(symbol);
    s.append(".)");
    s
}

/// Two symbols wrapped in the ZSH syntax that shows the first on success
/// exit codes and the second on error exit codes.
pub open spec fn spec_show_for_exit_codes(
    on_success_symbol: Seq<char>,
    on_error_symbol: Seq<char>,
) -> Seq<char> {
    "%(?."@ + on_success_symbol + "."@ + on_error_symbol + ")"@
}

/// Wraps two symbols to be shown for success and error exit codes using the
/// ZSH syntax.
pub fn show_symbols_for_exit_codes(on_success_symbol: &str, on_error_symbol: &str) -> (r: String)
    ensures
        r@ == spec_show_for_exit_codes(on_success_symbol@, on_error_symbol@),
{
    let mut s = String::from_str("%(?.");
    s.append(on_success_symbol);
    s.append(".");
    s.append(on_error_symbol);
    s.append(")");
    s
}

/// A symbol wrapped in the ZSH syntax that shows it only when background
/// jobs are running.
pub open spec fn spec_show_when_job(symbol: Seq<char>) -> Seq<char> {
    "%(1j."@ + symbol + ".)"@
}

/// Wraps a symbol to be shown only when there are background jobs running
/// using the ZSH syntax.
pub fn show_symbol_when_job(symbol: &str) -> (r: String)
    ensures
        r@ == spec_show_when_job(symbol@),
{
    let mut s = String::from_str("%(1j.");
    s.append(symbol);
    s.append(".)");
    s
}

/// The ZSH script that initiates the prompt. Its output should be evaluated
/// during the ZSH startup.
pub fn init_script() -> (r: String)
    ensures
        r@
            == "setopt promptsubst;\nexport VIRTUAL_ENV_DISABLE_PROMPT=1;\nPROMPT='$(river_dreams prompt left)';\nRPROMPT='$(river_dreams prompt right)';"@,
{
    String::from_str(
        "setopt promptsubst;\nexport VIRTUAL_ENV_DISABLE_PROMPT=1;\nPROMPT='$(river_dreams prompt left)';\nRPROMPT='$(river_dreams prompt right)';",
    )
}

} // verus!
