use vstd::prelude::*;
use vstd::string::*;

verus! {

pub const BLUE: &'static str = "\u{1b}[36m";
pub const PINK: &'static str = "\u{1b}[35m";
pub const GREEN: &'static str = "\u{1b}[32m";
pub const END_COL: &'static str = "\u{1b}[0m";

/// The prompt before a new input.
pub const PROMPT: &'static str = "\n\u{1b}[36m»\u{1b}[0m ";
/// The prompt before a continuation line of the same input.
pub const CONT_PROMPT: &'static str = "\u{1b}[36m…\u{1b}[0m ";

/// The prefix of the names given to each evaluated expression: the first is
/// `val1`, the next `val2`.
pub const AUTO_VAR_PREFIX: &'static str = "val";

/// Key bindings and commands, with their colors.
pub const TIPS: &'static str = "\u{1b}[36m  - \u{1b}[0m\u{1b}[35mctrl-v\u{1b}[0m + \u{1b}[35mctrl-j\u{1b}[0m makes a newline\n\n\u{1b}[36m  - \u{1b}[0m:q to quit\n\n\u{1b}[36m  - \u{1b}[0m:help\n";

/// The help text, on lines of its own.
pub fn tips() -> (r: String)
    ensures
        r@ == "\n"@ + TIPS@ + "\n"@,
{
    let mut s = String::from_str("\n");
    s.append(TIPS);
    s.append("\n");
    s
}

/// Decides, for the line editor, whether an input is complete.
pub struct InputValidator {}

impl InputValidator {
    pub fn new() -> InputValidator {
        InputValidator {}
    }
}

} // verus!
