//! Colors and weights of the printed tables.
//!
//! Whether anything is painted is up to `colored`: to its override, to the environment and to
//! what standard output is connected to. So which style is asked for is known exactly, and what
//! is printed up to that choice.

use colored::{Color, ColoredString, Colorize};
use vstd::prelude::*;
use vstd::string::to_string_from_display_ensures;

verus! {

/// A text with the color and the weight in which it is to be printed.
#[verifier::external_type_specification]
pub struct ExColoredString(colored::ColoredString);

/// A color.
#[verifier::external_type_specification]
pub struct ExColor(colored::Color);

/// Weights and the like, which `colored` keeps to itself, carried through as it made them.
#[verifier::external_type_specification]
#[verifier::external_body]
pub struct ExStyle(colored::Style);

/// The escape sequence that ends all styles.
pub open spec fn reset() -> Seq<char> {
    seq!['\u{1b}', '[', '0', 'm']
}

/// The escape sequence that starts green text.
pub open spec fn green() -> Seq<char> {
    seq!['\u{1b}', '[', '3', '2', 'm']
}

/// The escape sequence that starts yellow text.
pub open spec fn yellow() -> Seq<char> {
    seq!['\u{1b}', '[', '3', '3', 'm']
}

/// The escape sequence that starts blue text.
pub open spec fn blue() -> Seq<char> {
    seq!['\u{1b}', '[', '3', '4', 'm']
}

/// The escape sequence that starts gray text.
pub open spec fn bright_black() -> Seq<char> {
    seq!['\u{1b}', '[', '9', '0', 'm']
}

/// The escape sequence that starts bold text.
pub open spec fn bold() -> Seq<char> {
    seq!['\u{1b}', '[', '1', 'm']
}

/// `text` with `style` started again behind every [`reset`] that `text` holds.
pub open spec fn restyled(text: Seq<char>, style: Seq<char>) -> Seq<char>
    decreases text.len(),
{
    if text.len() < reset().len() {
        text
    } else if text.take(4) == reset() {
        reset() + style + restyled(text.skip(4), style)
    } else {
        text.take(1) + restyled(text.skip(1), style)
    }
}

/// `output` is `text` as `colored` prints it in `style`: either `text` itself or `text` between
/// the start of the style and a [`reset`], with the style taken up again behind every reset
/// inside. `colored` looks up whether to paint for each of these parts, so a thread that changes
/// its override meanwhile can drop the start and what is taken up again.
pub open spec fn painted(text: Seq<char>, style: Seq<char>, output: Seq<char>) -> bool {
    ||| output == text
    ||| output == style + restyled(text, style) + reset()
    ||| output == style + text + reset()
    ||| output == restyled(text, style) + reset()
    ||| output == text + reset()
}

/// `cell` holds `text`, in `color` and without a background.
pub open spec fn holds(cell: ColoredString, text: Seq<char>, color: Option<Color>) -> bool {
    &&& cell.input@ == text
    &&& cell.fgcolor == color
    &&& cell.bgcolor is None
}

/// What `colored::Colorize::green` makes of `text`.
pub uninterp spec fn green_text(text: Seq<char>) -> ColoredString;

/// What `colored::Colorize::yellow` makes of `text`.
pub uninterp spec fn yellow_text(text: Seq<char>) -> ColoredString;

/// What `colored::Colorize::blue` makes of `text`.
pub uninterp spec fn blue_text(text: Seq<char>) -> ColoredString;

/// What `colored::Colorize::bright_black` makes of `text`.
pub uninterp spec fn bright_black_text(text: Seq<char>) -> ColoredString;

/// What `colored::Colorize::bold` makes of `text`.
pub uninterp spec fn bold_text(text: Seq<char>) -> ColoredString;

/// Asks for `text` in that color with `colored::Colorize::green`, which prints nothing yet. The
/// contract names the outcome, and says that it holds `text` in that color, without a background.
/// That it is of no special weight is left to the name.
#[verifier::external_body]
pub(crate) fn in_green(text: &str) -> (cell: ColoredString)
    ensures
        cell == green_text(text@),
        holds(cell, text@, Some(Color::Green)),
{
    text.green()
}

/// Asks for `text` in that color with `colored::Colorize::yellow`, which prints nothing yet. The
/// contract names the outcome, and says that it holds `text` in that color, without a background.
/// That it is of no special weight is left to the name.
#[verifier::external_body]
pub(crate) fn in_yellow(text: &str) -> (cell: ColoredString)
    ensures
        cell == yellow_text(text@),
        holds(cell, text@, Some(Color::Yellow)),
{
    text.yellow()
}

/// Asks for `text` in that color with `colored::Colorize::blue`, which prints nothing yet. The
/// contract names the outcome, and says that it holds `text` in that color, without a background.
/// That it is of no special weight is left to the name.
#[verifier::external_body]
pub(crate) fn in_blue(text: &str) -> (cell: ColoredString)
    ensures
        cell == blue_text(text@),
        holds(cell, text@, Some(Color::Blue)),
{
    text.blue()
}

/// Asks for `text` in that color with `colored::Colorize::bright_black`, which prints nothing yet.
/// The contract names the outcome, and says that it holds `text` in that color, without a
/// background.
/// That it is of no special weight is left to the name.
#[verifier::external_body]
pub(crate) fn in_bright_black(text: &str) -> (cell: ColoredString)
    ensures
        cell == bright_black_text(text@),
        holds(cell, text@, Some(Color::BrightBlack)),
{
    text.bright_black()
}

/// Asks for `text` in bold with `colored::Colorize::bold`, which prints nothing yet. The contract
/// names the outcome, and says that it holds `text` in no color, without a background. That it is
/// bold is left to the name.
#[verifier::external_body]
pub(crate) fn in_bold(text: &str) -> (cell: ColoredString)
    ensures
        cell == bold_text(text@),
        holds(cell, text@, None),
{
    text.bold()
}

/// `output` is something that printing `cell` can come to.
pub open spec fn prints(cell: ColoredString, output: Seq<char>) -> bool {
    exists|text: String| #[trigger]
        to_string_from_display_ensures::<ColoredString>(&cell, text) && text@ == output
}

/// `output` is what printing `cell` came to, which stands for `text` in `style`.
pub open spec fn shown(
    cell: ColoredString,
    text: Seq<char>,
    style: Seq<char>,
    output: Seq<char>,
) -> bool {
    prints(cell, output) && painted(text, style, output)
}

/// Prints `cell` with the `Display` of `colored::ColoredString`. The contract says that the text
/// is one that `Display` gives, and, for a text in one of the styles of the tables, lists what
/// may come out, whatever `colored` decides about painting.
#[verifier::external_body]
pub(crate) fn print(cell: &ColoredString) -> (output: String)
    ensures
        to_string_from_display_ensures::<ColoredString>(cell, output),
        *cell == green_text(cell.input@) ==> painted(cell.input@, green(), output@),
        *cell == yellow_text(cell.input@) ==> painted(cell.input@, yellow(), output@),
        *cell == blue_text(cell.input@) ==> painted(cell.input@, blue(), output@),
        *cell == bright_black_text(cell.input@) ==> painted(cell.input@, bright_black(), output@),
        *cell == bold_text(cell.input@) ==> painted(cell.input@, bold(), output@),
{
    cell.to_string()
}

} // verus!
