//! Columns and quoting of the tables that the commands print.

use vstd::prelude::*;
use vstd::string::*;

verus! {

/// The characters of every line.
pub open spec fn texts(lines: Seq<String>) -> Seq<Seq<char>> {
    Seq::new(lines.len(), |i: int| lines[i]@)
}

/// `width` blanks.
pub open spec fn blanks(width: nat) -> Seq<char> {
    Seq::new(width, |i: int| ' ')
}

/// `text` filled up with blanks on its right side until it is `width` characters wide. A text
/// that is already as wide, or wider, stays as it is.
pub open spec fn left_aligned(text: Seq<char>, width: nat) -> Seq<char> {
    if text.len() < width {
        text + blanks((width - text.len()) as nat)
    } else {
        text
    }
}

/// The text that `{:?}` prints of a string: in double quotes, with what cannot be shown escaped.
pub uninterp spec fn debug_form(text: Seq<char>) -> Seq<char>;

/// Prints `text` with the `Debug` of `str`, through `std`'s `format`. The contract only claims
/// that the outcome depends on nothing but the characters of `text`: which characters are
/// escaped, and how, is not said.
#[verifier::external_body]
pub(crate) fn quoted(text: &str) -> (form: String)
    ensures
        form@ == debug_form(text@),
{
    format!("{:?}", text)
}

/// `first` directly followed by `second`.
pub(crate) fn concatenated(first: &str, second: &str) -> (both: String)
    ensures
        both@ == first@ + second@,
{
    first.to_owned().concat(second)
}

/// A cell of a table: `text` in a column of `width` characters, at the left edge of the column.
///
/// Escape sequences in `text` count as characters of it.
pub fn left_column(text: &str, width: usize) -> (cell: String)
    ensures
        cell@ == left_aligned(text@, width as nat),
{
    let mut cell: String = text.to_owned();
    let mut len: usize = text.unicode_len();
    while len < width
        invariant
            text@.len() <= len,
            len <= width || len == text@.len(),
            cell@ == text@ + blanks((len - text@.len()) as nat),
        decreases width - len,
    {
        cell.append(" ");
        len = len + 1;
        proof {
            reveal_strlit(" ");
            assert(cell@ =~= text@ + blanks((len - text@.len()) as nat));
        }
    }
    cell
}

/// The byte that ends a line.
pub const LINE_FEED: u8 = 10;

/// The output of a command that prints JSON: the document, with a line feed behind it.
pub fn json_output(document: Vec<u8>) -> (output: Vec<u8>)
    ensures
        output@ == document@.push(LINE_FEED),
{
    let mut output = document;
    output.push(LINE_FEED);
    output
}

} // verus!
