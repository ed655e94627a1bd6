//! The menu command vocabulary and its parser.

use vstd::prelude::*;

use crate::text::{codes_of, norm_codes, region_matches, trim_bounds};

verus! {

/// A top-level menu command.
#[derive(Clone, Copy, Debug, PartialEq, Eq, Structural)]
pub enum MenuOptions {
    Chat,
    LoadFile,
    Help,
    Options,
    Exit,
}

/// The command a line of input selects: the line is trimmed and matched
/// case-insensitively against the five command words; anything else selects
/// no command.
pub open spec fn parse_spec(s: Seq<char>) -> Option<MenuOptions> {
    if norm_codes(s) == codes_of("chat"@) {
        Some(MenuOptions::Chat)
    } else if norm_codes(s) == codes_of("loadfile"@) {
        Some(MenuOptions::LoadFile)
    } else if norm_codes(s) == codes_of("help"@) {
        Some(MenuOptions::Help)
    } else if norm_codes(s) == codes_of("options"@) {
        Some(MenuOptions::Options)
    } else if norm_codes(s) == codes_of("exit"@) {
        Some(MenuOptions::Exit)
    } else {
        None
    }
}

/// The text of the options menu, one line per command.
pub open spec fn menu_text_spec() -> Seq<char> {
    "Options Menu\n-------------\n| -Chat     |\n| -LoadFile |\n| -Help     |\n| -Options  |\n| -Exit     |\n-------------\n"@
}

impl MenuOptions {
    /// Parses a raw input line into the command it selects, ignoring case
    /// and surrounding whitespace.
    pub fn get_choice(choice: String) -> (r: Option<MenuOptions>)
        ensures
            r == parse_spec(choice@),
    {
        let s: &str = choice.as_str();
        let (lo, hi) = trim_bounds(s);
        if region_matches(s, lo, hi, "chat") {
            Some(MenuOptions::Chat)
        } else if region_matches(s, lo, hi, "loadfile") {
            Some(MenuOptions::LoadFile)
        } else if region_matches(s, lo, hi, "help") {
            Some(MenuOptions::Help)
        } else if region_matches(s, lo, hi, "options") {
            Some(MenuOptions::Options)
        } else if region_matches(s, lo, hi, "exit") {
            Some(MenuOptions::Exit)
        } else {
            None
        }
    }
}

/// The options menu as one string, ready to print.
pub fn menu_text() -> (r: String)
    ensures
        r@ == menu_text_spec(),
{
    String::from_str(
        "Options Menu\n-------------\n| -Chat     |\n| -LoadFile |\n| -Help     |\n| -Options  |\n| -Exit     |\n-------------\n",
    )
}

} // verus!
