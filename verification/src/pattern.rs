//! The glob patterns by which a sync profile picks and drops packages.

use crate::error::Error;
use crate::text::texts;
use glob::{Pattern, PatternError};
use vstd::prelude::*;

verus! {

/// A compiled glob, carried through as `glob` made it.
#[verifier::external_type_specification]
#[verifier::external_body]
pub struct ExPattern(glob::Pattern);

/// Why `glob` refused a text: about where, and with which message.
#[verifier::external_type_specification]
pub struct ExPatternError(glob::PatternError);

/// What `glob::Pattern::new` makes of `text`. A `**` has to fill a whole path component, so the
/// outcome also depends on whether a backslash separates components, as it does on Windows.
pub uninterp spec fn compiled_pattern(text: Seq<char>, backslash_separates: bool) -> Result<
    Pattern,
    PatternError,
>;

/// The text that `glob::Pattern::as_str` gives for a pattern.
pub uninterp spec fn pattern_source(pattern: Pattern) -> Seq<char>;

/// `outcome` is what compiling `text` comes to on this machine. A compiled pattern keeps its text.
pub open spec fn glob_outcome(text: Seq<char>, outcome: Result<Pattern, PatternError>) -> bool {
    &&& outcome == compiled_pattern(text, false) || (text.contains('\\') && outcome
        == compiled_pattern(text, true))
    &&& outcome matches Ok(pattern) ==> pattern_source(pattern) == text
}

/// Compiles `text` with `glob::Pattern::new`. The contract claims that the outcome depends on the
/// characters of `text` alone, and, for a text with a backslash in it, on whether the machine
/// takes a backslash for a separator of path components, and that a compiled pattern keeps `text`.
/// Which texts are refused is not said.
#[verifier::external_body]
fn compile_pattern(text: &str) -> (outcome: Result<Pattern, PatternError>)
    ensures
        outcome == compiled_pattern(text@, false) || (text@.contains('\\') && outcome
            == compiled_pattern(text@, true)),
        outcome matches Ok(pattern) ==> pattern_source(pattern) == text@,
{
    Pattern::new(text)
}

/// Reads the text of `pattern` with `glob::Pattern::as_str`. The contract gives that text its
/// name; [`compile_pattern`] says which text it is.
#[verifier::external_body]
fn source_of(pattern: &Pattern) -> (text: &str)
    ensures
        text@ == pattern_source(*pattern),
{
    pattern.as_str()
}

/// `index` is the place of the first refusal among `outcomes`.
pub open spec fn first_refusal(outcomes: Seq<Result<Pattern, PatternError>>, index: int) -> bool {
    &&& 0 <= index < outcomes.len()
    &&& outcomes[index] is Err
    &&& forall|before: int| 0 <= before < index ==> (#[trigger] outcomes[before]) is Ok
}

/// All the patterns of `outcomes`, in their order, or the first refusal if there is one.
pub fn collect_patterns(outcomes: Vec<Result<Pattern, PatternError>>) -> (collected: Result<
    Vec<Pattern>,
    Error,
>)
    ensures
        match collected {
            Ok(patterns) => {
                &&& patterns@.len() == outcomes@.len()
                &&& forall|i: int|
                    0 <= i < outcomes@.len() ==> #[trigger] outcomes@[i] == Ok::<
                        Pattern,
                        PatternError,
                    >(patterns@[i])
            },
            Err(error) => exists|i: int| #[trigger]
                first_refusal(outcomes@, i) && error == Error::Pattern(outcomes@[i]->Err_0),
        },
{
    let mut patterns: Vec<Pattern> = Vec::new();
    let ghost all = outcomes@;
    for outcome in iter: outcomes.into_iter()
        invariant
            iter.seq() == all,
            patterns@.len() == iter.index(),
            forall|i: int|
                0 <= i < iter.index() ==> #[trigger] all[i] == Ok::<Pattern, PatternError>(
                    patterns@[i],
                ),
    {
        match outcome {
            Ok(pattern) => patterns.push(pattern),
            Err(error) => {
                proof {
                    assert(first_refusal(all, patterns@.len() as int));
                }
                return Err(Error::Pattern(error));
            },
        }
    }
    Ok(patterns)
}

/// `text` compiles.
pub open spec fn accepted(text: Seq<char>) -> bool {
    exists|pattern: Pattern| glob_outcome(text, Ok(pattern))
}

/// The text at `index` is refused with `error`, and every text before it compiles.
pub open spec fn refused_at(texts: Seq<String>, index: int, error: PatternError) -> bool {
    &&& 0 <= index < texts.len()
    &&& glob_outcome(texts[index]@, Err(error))
    &&& forall|before: int| 0 <= before < index ==> accepted(#[trigger] texts[before]@)
}

/// `error` is the refusal of the first text of `texts` that does not compile.
pub open spec fn refused_with(texts: Seq<String>, error: PatternError) -> bool {
    exists|i: int| #[trigger] refused_at(texts, i, error)
}

/// `compiled` is what compiling `texts` one after the other comes to.
pub open spec fn compiled_from(texts: Seq<String>, compiled: Result<Vec<Pattern>, Error>) -> bool {
    match compiled {
        Ok(patterns) => {
            &&& patterns@.len() == texts.len()
            &&& forall|i: int|
                0 <= i < texts.len() ==> glob_outcome(texts[i]@, Ok(#[trigger] patterns@[i]))
        },
        Err(Error::Pattern(error)) => refused_with(texts, error),
        Err(_) => false,
    }
}

/// Compiles every text of `patterns`, in their order. The first text that `glob` refuses makes
/// the whole list fail with that refusal, and no later text is compiled.
pub fn patterns_from(patterns: &[String]) -> (compiled: Result<Vec<Pattern>, Error>)
    ensures
        compiled_from(patterns@, compiled),
{
    let mut outcomes: Vec<Result<Pattern, PatternError>> = Vec::new();
    let mut next: usize = 0;
    let mut refused: bool = false;
    while next < patterns.len() && !refused
        invariant
            next <= patterns@.len(),
            outcomes@.len() == next,
            forall|i: int|
                0 <= i < next ==> glob_outcome(patterns@[i]@, #[trigger] outcomes@[i]),
            forall|i: int|
                0 <= i < next - 1 ==> (#[trigger] outcomes@[i]) is Ok,
            !refused ==> forall|i: int| 0 <= i < next ==> (#[trigger] outcomes@[i]) is Ok,
            refused ==> next > 0 && outcomes@[next - 1] is Err,
        decreases patterns@.len() - next,
    {
        let outcome = compile_pattern(patterns[next].as_str());
        refused = outcome.is_err();
        outcomes.push(outcome);
        next = next + 1;
    }
    let ghost seen = outcomes@;
    let compiled = collect_patterns(outcomes);
    let ghost result = compiled;
    proof {
        match result {
            Ok(list) => {
                if refused {
                    assert(seen[next - 1] is Err);
                }
                assert forall|i: int| 0 <= i < patterns@.len() implies glob_outcome(
                    patterns@[i]@,
                    Ok(#[trigger] list@[i]),
                ) by {
                    assert(seen[i] is Ok);
                    assert(glob_outcome(patterns@[i]@, seen[i]));
                }
            },
            Err(error) => {
                let place = choose|i: int| #[trigger]
                    first_refusal(seen, i) && error == Error::Pattern(seen[i]->Err_0);
                assert(glob_outcome(patterns@[place]@, seen[place]));
                assert forall|before: int| 0 <= before < place implies accepted(
                    #[trigger] patterns@[before]@,
                ) by {
                    assert(glob_outcome(patterns@[before]@, seen[before]));
                    assert(seen[before] == Ok::<Pattern, PatternError>(seen[before]->Ok_0));
                }
                let refusal = seen[place]->Err_0;
                assert(error == Error::Pattern(refusal));
                assert(refused_at(patterns@, place, refusal));
                assert(refused_with(patterns@, refusal));
            },
        }
    }
    compiled
}

/// The texts of `patterns`.
pub open spec fn sources(patterns: Seq<Pattern>) -> Seq<Seq<char>> {
    Seq::new(patterns.len(), |i: int| pattern_source(patterns[i]))
}

/// The texts of `patterns`, in their order.
pub fn pattern_texts(patterns: &[Pattern]) -> (read: Vec<String>)
    ensures
        texts(read@) == sources(patterns@),
{
    let mut read: Vec<String> = Vec::new();
    let mut next: usize = 0;
    while next < patterns.len()
        invariant
            next <= patterns@.len(),
            read@.len() == next,
            forall|i: int| 0 <= i < next ==> (#[trigger] read@[i])@ == pattern_source(patterns@[i]),
        decreases patterns@.len() - next,
    {
        read.push(source_of(&patterns[next]).to_owned());
        next = next + 1;
    }
    assert(texts(read@) =~= sources(patterns@));
    read
}

} // verus!
