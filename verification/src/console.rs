use vstd::prelude::*;
use colored::Colorize;
use crate::workflow::Action;

verus! {

/// The colours of the console lines: progress in yellow, good news in
/// green, errors in red.
#[derive(Clone, Copy, Debug, PartialEq, Eq, Structural)]
pub enum Tint {
    Green,
    Yellow,
    Red,
}

/// The escape sequence that switches the terminal to a colour.
pub open spec fn escape_code(tint: Tint) -> Seq<char> {
    match tint {
        Tint::Green => "\x1B[32m"@,
        Tint::Yellow => "\x1B[33m"@,
        Tint::Red => "\x1B[31m"@,
    }
}

/// The escape sequence that switches the terminal back.
pub open spec fn reset_code() -> Seq<char> {
    "\x1B[0m"@
}

/// A text without an escape character in it.
pub open spec fn is_plain(text: Seq<char>) -> bool {
    forall|i: int| 0 <= i < text.len() ==> text[i] != '\x1B'
}

/// What highlighting may make of a plain text. Where colours are switched
/// off, the text itself; where they are on, the text between the colour's
/// escape sequence and the reset sequence. The switch is read more than
/// once while a text is written, so a text that another thread flips the
/// switch under may get the reset sequence alone.
pub open spec fn painted(text: Seq<char>, tint: Tint, out: Seq<char>) -> bool {
    ||| out == text
    ||| out == escape_code(tint) + text + reset_code()
    ||| out == text + reset_code()
}

/// A console line before it is highlighted: its text and its colour.
pub ghost struct Notice {
    pub text: Seq<char>,
    pub tint: Tint,
}

/// The line that announces an action and its colour, where the line is
/// fixed. The other lines carry values that only the driver holds: a
/// distance, a status, an error.
pub open spec fn notice_of(action: Action) -> Option<Notice> {
    match action {
        Action::AwaitService => Some(
            Notice { text: "waiting for service..."@, tint: Tint::Yellow },
        ),
        Action::SubmitGoal => Some(Notice { text: "service available."@, tint: Tint::Green }),
        Action::ReportRejection => Some(Notice { text: "Goal Rejected"@, tint: Tint::Red }),
        _ => None,
    }
}

/// `colored::Colorize::green` on a `&str`, written out through `Display`.
/// Claimed: a text without an escape character comes back as `painted`
/// says, with the code of green. Whether colours are on is decided by the
/// environment and by `colored`'s override switch; nothing is claimed of
/// that, nor of a text that holds an escape character.
#[verifier::external_body]
fn paint_green(text: &str) -> (out: String)
    ensures
        is_plain(text@) ==> painted(text@, Tint::Green, out@),
{
    text.green().to_string()
}

/// `colored::Colorize::yellow` on a `&str`, written out through `Display`.
/// Claimed: a text without an escape character comes back as `painted`
/// says, with the code of yellow; which of its forms is the environment's
/// choice.
#[verifier::external_body]
fn paint_yellow(text: &str) -> (out: String)
    ensures
        is_plain(text@) ==> painted(text@, Tint::Yellow, out@),
{
    text.yellow().to_string()
}

/// `colored::Colorize::red` on a `&str`, written out through `Display`.
/// Claimed: a text without an escape character comes back as `painted`
/// says, with the code of red; which of its forms is the environment's
/// choice.
#[verifier::external_body]
fn paint_red(text: &str) -> (out: String)
    ensures
        is_plain(text@) ==> painted(text@, Tint::Red, out@),
{
    text.red().to_string()
}

/// Highlights a text in a colour for the console.
pub fn highlight(text: &str, tint: Tint) -> (out: String)
    ensures
        is_plain(text@) ==> painted(text@, tint, out@),
{
    match tint {
        Tint::Green => paint_green(text),
        Tint::Yellow => paint_yellow(text),
        Tint::Red => paint_red(text),
    }
}

/// The fixed lines hold no escape character.
pub proof fn lemma_notices_are_plain(action: Action)
    requires
        notice_of(action) is Some,
    ensures
        is_plain(notice_of(action)->0.text),
{
    reveal_strlit("waiting for service...");
    reveal_strlit("service available.");
    reveal_strlit("Goal Rejected");
}

/// The fixed line that announces `action`, highlighted in its colour; `None`
/// for an action without such a line.
pub fn announcement(action: Action) -> (line: Option<String>)
    ensures
        line is Some <==> notice_of(action) is Some,
        line is Some ==> painted(notice_of(action)->0.text, notice_of(action)->0.tint, line->0@),
{
    proof {
        if notice_of(action) is Some {
            lemma_notices_are_plain(action);
        }
    }
    match action {
        Action::AwaitService => Some(highlight("waiting for service...", Tint::Yellow)),
        Action::SubmitGoal => Some(highlight("service available.", Tint::Green)),
        Action::ReportRejection => Some(highlight("Goal Rejected", Tint::Red)),
        _ => None,
    }
}

} // verus!
