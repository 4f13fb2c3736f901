//! What can stop a command, and how that is reported.

use crate::text::{concatenated, debug_form, quoted, texts};
use glob::PatternError;
use vstd::prelude::*;

verus! {

/// A failure that happened outside of this library: its message, and the messages of its causes,
/// the nearest one first.
#[derive(Debug)]
pub struct Failure {
    pub message: String,
    pub causes: Vec<String>,
}

impl Failure {
    /// The message, followed by the causes.
    pub open spec fn chain(self) -> Seq<Seq<char>> {
        seq![self.message@] + texts(self.causes@)
    }
}

/// The reason why a command stops.
#[derive(Debug)]
pub enum Error {
    /// Some work outside of this library failed.
    Outside(Failure),
    /// The config file could not be loaded.
    Config(Failure),
    /// The sync config has no profile of this name.
    ProfileNotFound(String),
    /// A package pattern of a sync profile is not a glob.
    Pattern(PatternError),
}

/// `number` in decimal digits.
pub open spec fn decimal(number: nat) -> Seq<char>
    decreases number,
{
    let digit = (('0' as int) + number % 10) as char;
    if number < 10 {
        seq![digit]
    } else {
        decimal(number / 10).push(digit)
    }
}

/// The message with which `glob` describes a refused pattern.
pub open spec fn pattern_error_message(error: PatternError) -> Seq<char> {
    "Pattern syntax error near position "@ + decimal(error.pos as nat) + ": "@ + error.msg@
}

/// Prints `error` with the `Display` of `glob::PatternError`. The contract says which text that
/// is.
#[verifier::external_body]
fn pattern_error_text(error: &PatternError) -> (text: String)
    ensures
        text@ == pattern_error_message(*error),
{
    error.to_string()
}

impl Error {
    /// The messages that describe the error, from the outermost to the root cause.
    pub open spec fn spec_chain(self) -> Seq<Seq<char>> {
        match self {
            Error::Outside(failure) => failure.chain(),
            Error::Config(failure) => seq!["Failed to load config file"@] + failure.chain(),
            Error::ProfileNotFound(name) => seq!["Profile not found: "@ + debug_form(name@)],
            Error::Pattern(error) => seq![pattern_error_message(error)],
        }
    }

    /// The messages that describe the error, from the outermost to the root cause.
    pub fn chain(&self) -> (chain: Vec<String>)
        ensures
            texts(chain@) == self.spec_chain(),
    {
        let mut chain: Vec<String> = Vec::new();
        match self {
            Error::Outside(failure) => {
                push_failure(&mut chain, failure);
            },
            Error::Config(failure) => {
                chain.push("Failed to load config file".to_owned());
                push_failure(&mut chain, failure);
            },
            Error::ProfileNotFound(name) => {
                chain.push(concatenated("Profile not found: ", quoted(name.as_str()).as_str()));
            },
            Error::Pattern(error) => {
                chain.push(pattern_error_text(error));
            },
        }
        assert(texts(chain@) =~= self.spec_chain());
        chain
    }

    /// The lines in which the program reports the error before it exits with status 1.
    pub fn report(&self) -> (lines: Vec<String>)
        ensures
            texts(lines@) == report_lines(self.spec_chain()),
    {
        let chain = self.chain();
        error_report(&chain)
    }
}

/// Appends the messages of `failure` to `chain`.
fn push_failure(chain: &mut Vec<String>, failure: &Failure)
    ensures
        texts(final(chain)@) == texts(old(chain)@) + failure.chain(),
{
    let ghost before = chain@;
    chain.push(failure.message.clone());
    let mut next: usize = 0;
    while next < failure.causes.len()
        invariant
            next <= failure.causes@.len(),
            texts(chain@) =~= texts(before) + seq![failure.message@] + texts(
                failure.causes@.take(next as int),
            ),
        decreases failure.causes@.len() - next,
    {
        let ghost so_far = chain@;
        chain.push(failure.causes[next].clone());
        assert(texts(chain@) =~= texts(so_far) + seq![failure.causes@[next as int]@]);
        assert(texts(failure.causes@.take(next + 1)) =~= texts(failure.causes@.take(next as int))
            + seq![failure.causes@[next as int]@]);
        next = next + 1;
    }
    assert(failure.causes@.take(next as int) =~= failure.causes@);
    assert(texts(chain@) =~= texts(before) + failure.chain());
}

/// The report of an error that `chain` describes: the outermost message, then its causes, one
/// line each.
pub open spec fn report_lines(chain: Seq<Seq<char>>) -> Seq<Seq<char>> {
    Seq::new(
        chain.len(),
        |i: int|
            if i == 0 {
                "Error: "@ + chain[i]
            } else {
                "Because: "@ + chain[i]
            },
    )
}

/// The report of an error that `chain` describes.
pub fn error_report(chain: &Vec<String>) -> (lines: Vec<String>)
    ensures
        texts(lines@) == report_lines(texts(chain@)),
{
    let mut lines: Vec<String> = Vec::new();
    let mut next: usize = 0;
    while next < chain.len()
        invariant
            next <= chain@.len(),
            lines@.len() == next,
            forall|i: int|
                0 <= i < next ==> (#[trigger] lines@[i])@ == report_lines(texts(chain@))[i],
        decreases chain@.len() - next,
    {
        let label = if next == 0 {
            "Error: "
        } else {
            "Because: "
        };
        lines.push(concatenated(label, chain[next].as_str()));
        next = next + 1;
    }
    assert(texts(lines@) =~= report_lines(texts(chain@)));
    lines
}

} // verus!
