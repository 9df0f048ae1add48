//! Terminal capability detection: from the terminal's identification
//! strings, read once at startup, the highlight style and selection marker
//! the renderer uses.

use vstd::prelude::*;
use vstd::string::*;
use crate::text::{contains, str_contains};

verus! {

/// How the selected row is highlighted.
#[derive(Debug, Clone, Copy, PartialEq, Eq, Structural)]
pub enum HighlightStyle {
    /// Bold underlined yellow text, for terminals that draw backgrounds badly.
    Underlined,
    /// Bold reversed cyan, inside a multiplexer.
    ReversedCyan,
    /// Bold white on a blue background, for terminals with many colours.
    BlueBackground,
    /// Bold reversed yellow, for anything else.
    ReversedYellow,
}

pub open spec fn is_warp(term_program: Seq<char>) -> bool {
    contains(term_program, "WarpTerminal"@) || contains(term_program, "Warp"@)
}

pub open spec fn in_multiplexer(term: Seq<char>) -> bool {
    contains(term, "screen"@) || contains(term, "tmux"@)
}

/// The highlight for a terminal, from `TERM`, `TERM_PROGRAM` and `COLORTERM`.
pub open spec fn highlight_spec(term: Seq<char>, program: Seq<char>, colorterm: Seq<char>) -> HighlightStyle {
    if is_warp(program) {
        HighlightStyle::Underlined
    } else if in_multiplexer(term) {
        HighlightStyle::ReversedCyan
    } else if contains(colorterm, "truecolor"@) || contains(term, "256color"@) {
        HighlightStyle::BlueBackground
    } else {
        HighlightStyle::ReversedYellow
    }
}

/// The marker drawn before the selected row.
pub open spec fn symbol_spec(program: Seq<char>, term: Seq<char>) -> Seq<char> {
    if is_warp(program) {
        "===> "@
    } else if contains(program, "iTerm"@) {
        "\u{25b6} "@
    } else if in_multiplexer(term) {
        "-> "@
    } else {
        "\u{25ba} "@
    }
}

/// Picks the highlight style for a terminal.
pub fn detect_highlight(term: &str, term_program: &str, colorterm: &str) -> (r: HighlightStyle)
    ensures
        r == highlight_spec(term@, term_program@, colorterm@),
{
    if str_contains(term_program, "WarpTerminal") || str_contains(term_program, "Warp") {
        HighlightStyle::Underlined
    } else if str_contains(term, "screen") || str_contains(term, "tmux") {
        HighlightStyle::ReversedCyan
    } else if str_contains(colorterm, "truecolor") || str_contains(term, "256color") {
        HighlightStyle::BlueBackground
    } else {
        HighlightStyle::ReversedYellow
    }
}

/// Picks the selection marker for a terminal.
pub fn selection_symbol(term_program: &str, term: &str) -> (r: &'static str)
    ensures
        r@ == symbol_spec(term_program@, term@),
{
    if str_contains(term_program, "WarpTerminal") || str_contains(term_program, "Warp") {
        "===> "
    } else if str_contains(term_program, "iTerm") {
        "\u{25b6} "
    } else if str_contains(term, "screen") || str_contains(term, "tmux") {
        "-> "
    } else {
        "\u{25ba} "
    }
}

/// The one-character prefix of a row: `>` when selected, a space otherwise.
pub fn selection_prefix(selected: bool) -> (r: String)
    ensures
        r@ == (if selected {
            ">"@
        } else {
            " "@
        }),
{
    if selected {
        String::from_str(">")
    } else {
        String::from_str(" ")
    }
}

/// The text that reports what was detected.
pub open spec fn terminal_info_spec(term: Seq<char>, program: Seq<char>, colorterm: Seq<char>) -> Seq<
    char,
> {
    "Terminal Detection:\n  TERM: "@ + term + "\n  TERM_PROGRAM: "@ + program + "\n  COLORTERM: "@
        + colorterm + "\n  Selection Symbol: '"@ + symbol_spec(program, term) + "'\n"@
}

/// Reports the terminal identification and the marker chosen for it.
pub fn terminal_info(term: &str, term_program: &str, colorterm: &str) -> (r: String)
    ensures
        r@ == terminal_info_spec(term@, term_program@, colorterm@),
{
    let mut s = String::from_str("Terminal Detection:\n  TERM: ");
    s.append(term);
    s.append("\n  TERM_PROGRAM: ");
    s.append(term_program);
    s.append("\n  COLORTERM: ");
    s.append(colorterm);
    s.append("\n  Selection Symbol: '");
    s.append(selection_symbol(term_program, term));
    s.append("'\n");
    s
}

} // verus!
