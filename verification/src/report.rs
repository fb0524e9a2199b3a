//! The lines shown to the user: which module started, what failed, and the
//! usage.

use crate::outcome::{ErrorView, ExecutionOutcome, OutcomeView};
use simpleargumentsparser::Color;
use vstd::prelude::*;

verus! {

/// `text` in red: the escape sequence for a red foreground, the text, and the
/// sequence that resets the terminal.
pub open spec fn red(text: Seq<char>) -> Seq<char> {
    "\x1b[31m"@ + text + "\x1b[0m"@
}

/// `text` in green: the escape sequence for a green foreground, the text, and
/// the sequence that resets the terminal.
pub open spec fn green(text: Seq<char>) -> Seq<char> {
    "\x1b[32m"@ + text + "\x1b[0m"@
}

/// `text` in bold bright red: the escape sequences for bold and for a bright
/// red foreground, the text, and the sequence that resets the terminal.
pub open spec fn bold_bright_red(text: Seq<char>) -> Seq<char> {
    "\x1b[1m"@ + "\x1b[91m"@ + text + "\x1b[0m"@
}

/// The colour of `simpleargumentsparser`: a list of styles to paint text
/// with. Nothing inside it is visible here.
#[verifier::external_type_specification]
#[verifier::external_body]
pub struct ExColor(simpleargumentsparser::Color);

/// The styles that a colour holds: their escape codes, in the order in which
/// the styles were added, one after the other.
pub uninterp spec fn styles_of(color: Color) -> Seq<char>;

/// Calls `simpleargumentsparser::Color::new`, which makes a colour that
/// holds no style. The contract says so and is not proved.
#[verifier::external_body]
fn plain_color() -> (color: Color)
    ensures
        styles_of(color) == Seq::<char>::empty(),
{
    Color::new()
}

/// Calls `simpleargumentsparser::Color::bold`, which returns a copy of the
/// colour with the code for bold added after its styles. The contract says
/// so and is not proved.
#[verifier::external_body]
fn with_bold(color: &Color) -> (bold: Color)
    ensures
        styles_of(bold) == styles_of(*color) + "\x1b[1m"@,
{
    color.bold()
}

/// Calls `simpleargumentsparser::Color::red`, which adds the code for a red
/// foreground after the colour's styles and returns the styles, the text and
/// the reset code, in this order. The contract says so and is not proved.
#[verifier::external_body]
fn apply_red(color: &Color, text: &str) -> (painted: String)
    ensures
        painted@ == styles_of(*color) + "\x1b[31m"@ + text@ + "\x1b[0m"@,
{
    color.red(text)
}

/// Calls `simpleargumentsparser::Color::green`, which adds the code for a
/// green foreground after the colour's styles and returns the styles, the
/// text and the reset code, in this order. The contract says so and is not
/// proved.
#[verifier::external_body]
fn apply_green(color: &Color, text: &str) -> (painted: String)
    ensures
        painted@ == styles_of(*color) + "\x1b[32m"@ + text@ + "\x1b[0m"@,
{
    color.green(text)
}

/// Calls `simpleargumentsparser::Color::bright_red`, which adds the code for
/// a bright red foreground after the colour's styles and returns the styles,
/// the text and the reset code, in this order. The contract says so and is
/// not proved.
#[verifier::external_body]
fn apply_bright_red(color: &Color, text: &str) -> (painted: String)
    ensures
        painted@ == styles_of(*color) + "\x1b[91m"@ + text@ + "\x1b[0m"@,
{
    color.bright_red(text)
}

/// `text` in red.
fn paint_red(text: &str) -> (painted: String)
    ensures
        painted@ == red(text@),
{
    let color = plain_color();
    let painted = apply_red(&color, text);
    assert(painted@ =~= red(text@));
    painted
}

/// `text` in green.
fn paint_green(text: &str) -> (painted: String)
    ensures
        painted@ == green(text@),
{
    let color = plain_color();
    let painted = apply_green(&color, text);
    assert(painted@ =~= green(text@));
    painted
}

/// `text` in bold bright red.
fn paint_bold_bright_red(text: &str) -> (painted: String)
    ensures
        painted@ == bold_bright_red(text@),
{
    let color = plain_color();
    let bold = with_bold(&color);
    let painted = apply_bright_red(&bold, text);
    assert(painted@ =~= bold_bright_red(text@));
    painted
}

/// The mark that opens the line of a module that starts.
pub open spec fn start_mark(colored: bool) -> Seq<char> {
    if colored {
        green("▶"@)
    } else {
        "▶"@
    }
}

/// The mark that opens the line of a module that failed.
pub open spec fn failure_mark(colored: bool) -> Seq<char> {
    if colored {
        red("✗"@)
    } else {
        "✗"@
    }
}

/// The word that opens the line of a rejected invocation.
pub open spec fn error_mark(colored: bool) -> Seq<char> {
    if colored {
        red("error:"@)
    } else {
        "error:"@
    }
}

/// The line that says that the module `name` starts.
pub open spec fn spec_running_line(name: Seq<char>, colored: bool) -> Seq<char> {
    start_mark(colored) + " Running: "@ + name
}

/// The line that says that the module `name` failed with `message`.
pub open spec fn spec_failure_line(name: Seq<char>, message: Seq<char>, colored: bool) -> Seq<
    char,
> {
    failure_mark(colored) + " "@ + name + " failed: "@ + message
}

/// The line that says that the target is missing.
pub open spec fn spec_missing_target_line(colored: bool) -> Seq<char> {
    error_mark(colored) + " "@ + ErrorView::MissingTarget.message()
}

/// The line to show after the module `name` came to `outcome`: nothing after
/// a success, the failure line after a failure.
pub open spec fn spec_outcome_line(name: Seq<char>, outcome: OutcomeView, colored: bool) -> Option<
    Seq<char>,
> {
    match outcome {
        OutcomeView::Success => None,
        OutcomeView::Failure { module_id, message } => Some(
            spec_failure_line(name, message, colored),
        ),
    }
}

/// The name of the program, as the usage shows it.
pub open spec fn banner(colored: bool) -> Seq<char> {
    if colored {
        bold_bright_red("BAHAMUT"@)
    } else {
        "BAHAMUT"@
    }
}

/// The usage, line by line.
pub open spec fn spec_usage(colored: bool) -> Seq<Seq<char>> {
    seq![
        banner(colored),
        "\nUsage:\n  bahamut -t <target> [options]"@,
        "\nOptions:"@,
        "  -t, --target  Target URL"@,
        "  --fetch       Run domain fetcher"@,
    ]
}

/// The line that says that the module `name` starts.
pub fn running_line(name: &str, colored: bool) -> (line: String)
    ensures
        line@ == spec_running_line(name@, colored),
{
    let mut line = if colored {
        paint_green("▶")
    } else {
        "▶".to_owned()
    };
    line.append(" Running: ");
    line.append(name);
    line
}

/// The line that says that the module `name` failed with `message`.
pub fn failure_line(name: &str, message: &str, colored: bool) -> (line: String)
    ensures
        line@ == spec_failure_line(name@, message@, colored),
{
    let mut line = if colored {
        paint_red("✗")
    } else {
        "✗".to_owned()
    };
    line.append(" ");
    line.append(name);
    line.append(" failed: ");
    line.append(message);
    line
}

/// The line that says that the target is missing.
pub fn missing_target_line(colored: bool) -> (line: String)
    ensures
        line@ == spec_missing_target_line(colored),
{
    let mut line = if colored {
        paint_red("error:")
    } else {
        "error:".to_owned()
    };
    line.append(" ");
    line.append("target required");
    line
}

/// The line to show after the module `name` came to `outcome`, if there is
/// one to show.
pub fn outcome_line(name: &str, outcome: &ExecutionOutcome, colored: bool) -> (line: Option<
    String,
>)
    ensures
        match line {
            Some(text) => spec_outcome_line(name@, outcome@, colored) == Some(text@),
            None => spec_outcome_line(name@, outcome@, colored) is None,
        },
{
    match outcome {
        ExecutionOutcome::Success => None,
        ExecutionOutcome::Failure { module_id, message } => Some(
            failure_line(name, message.as_str(), colored),
        ),
    }
}

/// The usage, line by line.
pub fn usage(colored: bool) -> (lines: Vec<String>)
    ensures
        lines.deep_view() == spec_usage(colored),
{
    let mut lines: Vec<String> = Vec::new();
    lines.push(
        if colored {
            paint_bold_bright_red("BAHAMUT")
        } else {
            "BAHAMUT".to_owned()
        },
    );
    lines.push("\nUsage:\n  bahamut -t <target> [options]".to_owned());
    lines.push("\nOptions:".to_owned());
    lines.push("  -t, --target  Target URL".to_owned());
    lines.push("  --fetch       Run domain fetcher".to_owned());
    assert(lines.deep_view() =~= spec_usage(colored));
    lines
}

} // verus!
