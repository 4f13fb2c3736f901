//! What the operations give, told by what they are given.

use crate::api::SuiteImport;
use crate::command::{default_log_filter, endpoint, queue_limit, Pkgs, Queue, SubCommand};
use crate::error::{decimal, error_report, Error};
use crate::laws::backslash_free;
use crate::pattern::{
    accepted, collect_patterns, compiled_from, compiled_pattern, first_refusal, glob_outcome,
    pattern_source, pattern_texts, patterns_from, refused_at,
};
use crate::profile::{SyncConfigFile, SyncProfile};
use crate::run::{authorize, dispatch, Action, Authorized, Form, State};
use crate::sync::{profile_sync, sync, sync_of_profile, PkgsSync, SyncAction};
use crate::text::{debug_form, json_output, texts};
use crate::time::{chrono_format, Timestamp};
use glob::{Pattern, PatternError};
use vstd::prelude::*;

verus! {

/// The log shows debug messages if and only if the program is told to be verbose.
pub proof fn lemma_verbose_shows_debug_messages(verbose: bool, filter: &'static str)
    requires
        call_ensures(default_log_filter, (verbose,), filter),
    ensures
        verbose ==> filter@ == "debug"@,
        !verbose ==> filter@ == "info"@,
{
}

/// The endpoint of the command line goes before the one of the config file, which goes before the
/// one on this machine.
pub proof fn lemma_endpoints_in_their_order(
    given: Option<String>,
    configured: Option<String>,
    chosen: String,
)
    requires
        call_ensures(endpoint, (given, configured), chosen),
    ensures
        given matches Some(url) ==> chosen@ == url@,
        given is None ==> (configured matches Some(url) ==> chosen@ == url@),
        given is None && configured is None ==> chosen@ == "http://127.0.0.1:8080"@,
{
}

/// The head of the queue is 25 items, and the queue itself has no limit.
pub proof fn lemma_head_of_the_queue(head: bool, limit: Option<i64>)
    requires
        call_ensures(queue_limit, (head,), limit),
    ensures
        head ==> limit == Some(25i64),
        !head ==> limit is None,
{
}

/// A JSON document is printed unchanged, with one line feed behind it.
pub proof fn lemma_json_is_printed_unchanged(document: Vec<u8>, output: Vec<u8>)
    requires
        call_ensures(json_output, (document,), output),
    ensures
        output@.len() == document@.len() + 1,
        forall|i: int| 0 <= i < document@.len() ==> #[trigger] output@[i] == document@[i],
        output@[document@.len() as int] == 10,
{
}

/// A point in time is made of any second that `chrono` knows, from the year -262143 to the year
/// 262142, with less than a second of nanoseconds, or with less than two in the last second of a
/// minute; of nothing else; and it keeps them.
pub proof fn lemma_timestamps_keep_their_time(secs: i64, nanos: u32, timestamp: Option<Timestamp>)
    requires
        call_ensures(Timestamp::new, (secs, nanos), timestamp),
    ensures
        timestamp is Some <==> {
            &&& -8_334_601_228_800 <= secs <= 8_210_266_876_799
            &&& nanos < 1_000_000_000 || nanos < 2_000_000_000 && (secs as int) % 60 == 59
        },
        timestamp matches Some(time) ==> time.secs() == secs && time.nanos() == nanos,
{
}

/// A point in time is shown as `chrono` shows it, by its date and its time of day.
pub proof fn lemma_timestamps_show_date_and_time(timestamp: Timestamp, text: String)
    requires
        call_ensures(Timestamp::text, (&timestamp,), text),
    ensures
        text@ == chrono_format(timestamp.secs(), timestamp.nanos(), "%Y-%m-%d %H:%M:%S"@),
{
}

/// The time from one point to another is what has elapsed between them, to the second and towards
/// zero. A leap second that one of them is in counts if the other one is at a later time of day.
pub proof fn lemma_time_between_is_the_elapsed_time(now: Timestamp, then: Timestamp, seconds: i64)
    requires
        call_ensures(Timestamp::seconds_since, (&now, &then), seconds),
    ensures
        ({
            let leap = if now.secs() % 86_400 > then.secs() % 86_400 && then.nanos()
                >= 1_000_000_000 {
                1int
            } else if now.secs() % 86_400 < then.secs() % 86_400 && now.nanos() >= 1_000_000_000 {
                -1
            } else {
                0
            };
            let elapsed = (now.secs() - then.secs() + leap) * 1_000_000_000 + now.nanos()
                - then.nanos();
            &&& elapsed >= 0 ==> 0 <= elapsed - seconds * 1_000_000_000 < 1_000_000_000
            &&& elapsed <= 0 ==> -1_000_000_000 < elapsed - seconds * 1_000_000_000 <= 0
        }),
{
}

/// The time from one point to another is the opposite of the time back.
pub proof fn lemma_time_runs_both_ways(now: Timestamp, then: Timestamp, forth: i64, back: i64)
    requires
        call_ensures(Timestamp::seconds_since, (&now, &then), forth),
        call_ensures(Timestamp::seconds_since, (&then, &now), back),
    ensures
        forth == -back,
{
    lemma_time_between_is_the_elapsed_time(now, then, forth);
    lemma_time_between_is_the_elapsed_time(then, now, back);
}

/// What describes an error: the message of a failure and all its causes in their order, with the
/// context in front if it is about the config file; the name of a missing profile; or where and
/// why `glob` refused a pattern.
pub proof fn lemma_chain_describes_the_error(error: Error, chain: Vec<String>)
    requires
        call_ensures(Error::chain, (&error,), chain),
    ensures
        match error {
            Error::Outside(failure) => {
                &&& chain@.len() == failure.causes@.len() + 1
                &&& chain@[0]@ == failure.message@
                &&& forall|i: int|
                    0 <= i < failure.causes@.len() ==> (#[trigger] failure.causes@[i])@ == chain@[i
                        + 1]@
            },
            Error::Config(failure) => {
                &&& chain@.len() == failure.causes@.len() + 2
                &&& chain@[0]@ == "Failed to load config file"@
                &&& chain@[1]@ == failure.message@
                &&& forall|i: int|
                    0 <= i < failure.causes@.len() ==> (#[trigger] failure.causes@[i])@ == chain@[i
                        + 2]@
            },
            Error::ProfileNotFound(name) => {
                &&& chain@.len() == 1
                &&& chain@[0]@ == "Profile not found: "@ + debug_form(name@)
            },
            Error::Pattern(refusal) => {
                &&& chain@.len() == 1
                &&& chain@[0]@ == "Pattern syntax error near position "@ + decimal(
                    refusal.pos as nat,
                ) + ": "@ + refusal.msg@
            },
        },
{
    let told = texts(chain@);
    assert(told == error.spec_chain());
    assert(told.len() == chain@.len());
    match error {
        Error::Outside(failure) => {
            assert(chain@[0]@ == told[0]);
            assert forall|i: int| 0 <= i < failure.causes@.len() implies (
            #[trigger] failure.causes@[i])@ == chain@[i + 1]@ by {
                assert(told[i + 1] == failure.causes@[i]@);
            }
        },
        Error::Config(failure) => {
            assert(chain@[0]@ == told[0]);
            assert(chain@[1]@ == told[1]);
            assert forall|i: int| 0 <= i < failure.causes@.len() implies (
            #[trigger] failure.causes@[i])@ == chain@[i + 2]@ by {
                assert(told[i + 2] == failure.causes@[i]@);
            }
        },
        Error::ProfileNotFound(name) => {
            assert(chain@[0]@ == told[0]);
        },
        Error::Pattern(refusal) => {
            assert(chain@[0]@ == told[0]);
        },
    }
}

/// A report has one line per message: the first calls itself the error, the others its reasons.
pub proof fn lemma_reports_tell_every_message(chain: Vec<String>, lines: Vec<String>)
    requires
        call_ensures(error_report, (&chain,), lines),
    ensures
        lines@.len() == chain@.len(),
        chain@.len() > 0 ==> lines@[0]@ == "Error: "@ + chain@[0]@,
        forall|i: int|
            0 < i < chain@.len() ==> (#[trigger] lines@[i])@ == "Because: "@ + chain@[i]@,
{
    assert(texts(lines@).len() == lines@.len());
    assert forall|i: int| 0 <= i < chain@.len() implies (#[trigger] lines@[i])@ == texts(
        lines@,
    )[i] by {}
    if chain@.len() > 0 {
        assert(lines@[0]@ == texts(lines@)[0]);
    }
}

/// The report of an error is the one of what describes it.
pub proof fn lemma_errors_are_reported_by_their_chain(
    error: Error,
    chain: Vec<String>,
    lines: Vec<String>,
)
    requires
        call_ensures(Error::chain, (&error,), chain),
        call_ensures(Error::report, (&error,), lines),
    ensures
        lines@.len() == chain@.len() > 0,
        lines@[0]@ == "Error: "@ + chain@[0]@,
        forall|i: int|
            0 < i < chain@.len() ==> (#[trigger] lines@[i])@ == "Because: "@ + chain@[i]@,
{
    lemma_chain_describes_the_error(error, chain);
    assert(texts(chain@) == error.spec_chain());
    assert(texts(lines@).len() == lines@.len());
    assert forall|i: int| 0 <= i < chain@.len() implies (#[trigger] lines@[i])@ == texts(
        lines@,
    )[i] && texts(chain@)[i] == chain@[i]@ by {}
    assert(lines@[0]@ == texts(lines@)[0]);
}

/// A profile that was put into a sync config is found there under its name, in place of any other
/// that had it, and all other profiles are found, or missed, as before.
pub proof fn lemma_profiles_are_kept_by_name(
    config: SyncConfigFile,
    name: String,
    profile: SyncProfile,
    after: SyncConfigFile,
    wanted: String,
    found: Result<SyncProfile, Error>,
    found_before: Result<SyncProfile, Error>,
)
    requires
        call_ensures(SyncConfigFile::insert, (config, name, profile), after),
        call_ensures(SyncConfigFile::take_profile, (after, wanted), found),
        call_ensures(SyncConfigFile::take_profile, (config, wanted), found_before),
    ensures
        wanted@ == name@ ==> found == Ok::<SyncProfile, Error>(profile),
        wanted@ != name@ ==> found == found_before,
        found_before is Err ==> found_before->Err_0 == Error::ProfileNotFound(wanted),
{
}

/// Nothing is found in a new sync config.
pub proof fn lemma_new_config_has_no_profile(
    config: SyncConfigFile,
    wanted: String,
    found: Result<SyncProfile, Error>,
)
    requires
        call_ensures(SyncConfigFile::new, (), config),
        call_ensures(SyncConfigFile::take_profile, (config, wanted), found),
    ensures
        found == Err::<SyncProfile, Error>(Error::ProfileNotFound(wanted)),
{
}

/// Outcomes are collected in their order if all of them are patterns; else the first refusal is
/// what comes out.
pub proof fn lemma_outcomes_are_collected(
    outcomes: Vec<Result<Pattern, PatternError>>,
    collected: Result<Vec<Pattern>, Error>,
)
    requires
        call_ensures(collect_patterns, (outcomes,), collected),
    ensures
        collected is Ok <==> (forall|i: int|
            0 <= i < outcomes@.len() ==> (#[trigger] outcomes@[i]) is Ok),
        collected matches Ok(list) ==> {
            &&& list@.len() == outcomes@.len()
            &&& forall|i: int|
                0 <= i < outcomes@.len() ==> (#[trigger] outcomes@[i])->Ok_0 == list@[i]
        },
        forall|i: int|
            0 <= i < outcomes@.len() && (#[trigger] outcomes@[i]) is Err && (forall|j: int|
                0 <= j < i ==> (#[trigger] outcomes@[j]) is Ok) ==> collected->Err_0
                == Error::Pattern(outcomes@[i]->Err_0),
{
    if let Ok(list) = collected {
        assert forall|i: int| 0 <= i < outcomes@.len() implies (#[trigger] outcomes@[i]) is Ok
            && outcomes@[i]->Ok_0 == list@[i] by {}
    } else {
        let error = collected->Err_0;
        let place = choose|i: int| #[trigger]
            first_refusal(outcomes@, i) && error == Error::Pattern(
                outcomes@[i]->Err_0,
            );
        assert(outcomes@[place] is Err);
        assert forall|i: int|
            0 <= i < outcomes@.len() && (#[trigger] outcomes@[i]) is Err && (forall|j: int|
                0 <= j < i ==> (#[trigger] outcomes@[j]) is Ok) implies error == Error::Pattern(
            outcomes@[i]->Err_0,
        ) by {
            if i < place {
                assert(outcomes@[i] is Ok);
            } else if place < i {
                assert(outcomes@[place] is Ok);
            }
        }
    }
}

/// `outcome` is what `glob` makes of `text` on some machine; where a backslash is no matter, it is
/// the same on every machine.
pub open spec fn is_made_of(text: Seq<char>, outcome: Result<Pattern, PatternError>) -> bool {
    if text.contains('\\') {
        outcome == compiled_pattern(text, false) || outcome == compiled_pattern(text, true)
    } else {
        outcome == compiled_pattern(text, false)
    }
}

/// `glob` makes a pattern of `text`, on some machine.
pub open spec fn is_fine(text: Seq<char>) -> bool {
    exists|pattern: Pattern| is_made_of(text, Ok(pattern))
}

/// Every pattern is what `glob` makes of the text in its place, and keeps that text. A list only
/// fails with what `glob` says of one of its texts, all texts before which are fine.
pub proof fn lemma_patterns_are_compiled_one_by_one(
    patterns: &[String],
    compiled: Result<Vec<Pattern>, Error>,
)
    requires
        call_ensures(patterns_from, (patterns,), compiled),
    ensures
        compiled matches Ok(list) ==> {
            &&& list@.len() == patterns@.len()
            &&& forall|i: int|
                0 <= i < patterns@.len() ==> is_made_of(patterns@[i]@, Ok(#[trigger] list@[i]))
                    && pattern_source(list@[i]) == patterns@[i]@
        },
        compiled matches Err(error) ==> error is Pattern && exists|i: int|
            {
                &&& 0 <= i < patterns@.len()
                &&& is_made_of((#[trigger] patterns@[i])@, Err(error->Pattern_0))
                &&& forall|j: int| 0 <= j < i ==> is_fine((#[trigger] patterns@[j])@)
            },
{
    if let Err(error) = compiled {
        let refusal = error->Pattern_0;
        let place = choose|i: int| refused_at(patterns@, i, refusal);
        assert(refused_at(patterns@, place, refusal));
        assert(is_made_of(patterns@[place]@, Err(refusal)));
        assert forall|j: int| 0 <= j < place implies is_fine((#[trigger] patterns@[j])@) by {
            assert(accepted(patterns@[j]@));
            let pattern = choose|pattern: Pattern| glob_outcome(patterns@[j]@, Ok(pattern));
            assert(is_made_of(patterns@[j]@, Ok(pattern)));
        }
    } else {
        let list = compiled->Ok_0;
        assert forall|i: int| 0 <= i < patterns@.len() implies is_made_of(
            patterns@[i]@,
            Ok(#[trigger] list@[i]),
        ) && pattern_source(list@[i]) == patterns@[i]@ by {
            assert(glob_outcome(patterns@[i]@, Ok(list@[i])));
        }
    }
}

/// A list compiles if and only if `glob` takes every text of it.
pub proof fn lemma_lists_compile_if_every_text_does(
    patterns: &[String],
    compiled: Result<Vec<Pattern>, Error>,
)
    requires
        backslash_free(patterns@),
        call_ensures(patterns_from, (patterns,), compiled),
    ensures
        compiled is Ok <==> (forall|i: int|
            0 <= i < patterns@.len() ==> compiled_pattern(
                (#[trigger] patterns@[i])@,
                false,
            ) is Ok),
{
    lemma_patterns_are_compiled_one_by_one(patterns, compiled);
    if let Ok(list) = compiled {
        assert forall|i: int| 0 <= i < patterns@.len() implies compiled_pattern(
            (#[trigger] patterns@[i])@,
            false,
        ) is Ok by {
            assert(is_made_of(patterns@[i]@, Ok(list@[i])));
        }
    } else {
        let refusal = compiled->Err_0->Pattern_0;
        let place = choose|i: int|
            0 <= i < patterns@.len() && is_made_of((#[trigger] patterns@[i])@, Err(refusal));
        assert(compiled_pattern(patterns@[place]@, false) is Err);
    }
}

/// The texts that are read back are those of the patterns, in their order.
pub proof fn lemma_texts_are_read_back(patterns: &[Pattern], read: Vec<String>)
    requires
        call_ensures(pattern_texts, (patterns,), read),
    ensures
        read@.len() == patterns@.len(),
        forall|i: int|
            0 <= i < patterns@.len() ==> (#[trigger] read@[i])@ == pattern_source(patterns@[i]),
{
    assert(texts(read@).len() == read@.len());
    assert forall|i: int| 0 <= i < patterns@.len() implies (#[trigger] read@[i])@ == pattern_source(
        patterns@[i],
    ) by {
        assert(texts(read@)[i] == read@[i]@);
    }
}

/// The packages of a distribution are printed if that is asked for, and else sent with where they
/// belong; never both, and never changed.
pub proof fn lemma_a_sync_prints_or_sends_what_it_got<D>(
    request: PkgsSync,
    pkgs: D,
    action: SyncAction<D>,
)
    requires
        call_ensures(sync::<D>, (request, pkgs), action),
    ensures
        request.print_json ==> action == SyncAction::PrintJson(pkgs),
        !request.print_json ==> action == SyncAction::SyncSuite(
            SuiteImport {
                distro: request.distro,
                suite: request.suite,
                architecture: request.architecture,
                pkgs,
            },
        ),
{
}

/// The patterns of `list` are what `glob` makes of `patterns`, one by one and in their order, and
/// keep their texts.
pub open spec fn are_patterns_of(list: Seq<Pattern>, patterns: Seq<String>) -> bool {
    &&& list.len() == patterns.len()
    &&& forall|i: int|
        0 <= i < patterns.len() ==> pattern_source(#[trigger] list[i]) == patterns[i]@
            && is_made_of(patterns[i]@, Ok(list[i]))
}

/// `sync` is `profile` in full, and is printed or sent as `print_json` says.
pub open spec fn is_sync_of(sync: PkgsSync, profile: SyncProfile, print_json: bool) -> bool {
    &&& sync.distro == profile.distro
    &&& sync.suite == profile.suite
    &&& sync.architecture == profile.architecture
    &&& sync.source == profile.source
    &&& sync.maintainers == profile.maintainers
    &&& sync.print_json == print_json
    &&& are_patterns_of(sync.pkgs@, profile.pkgs@)
    &&& are_patterns_of(sync.excludes@, profile.excludes@)
}

proof fn lemma_is_sync_of(profile: SyncProfile, print_json: bool, sync: PkgsSync)
    requires
        sync_of_profile(profile, print_json, Ok(sync)),
    ensures
        is_sync_of(sync, profile, print_json),
{
    assert forall|i: int| 0 <= i < profile.pkgs@.len() implies pattern_source(
        #[trigger] sync.pkgs@[i],
    ) == profile.pkgs@[i]@ && is_made_of(profile.pkgs@[i]@, Ok(sync.pkgs@[i])) by {
        assert(glob_outcome(profile.pkgs@[i]@, Ok(sync.pkgs@[i])));
    }
    assert forall|i: int| 0 <= i < profile.excludes@.len() implies pattern_source(
        #[trigger] sync.excludes@[i],
    ) == profile.excludes@[i]@ && is_made_of(profile.excludes@[i]@, Ok(sync.excludes@[i])) by {
        assert(glob_outcome(profile.excludes@[i]@, Ok(sync.excludes@[i])));
    }
}

/// The sync of a profile is the profile in full: where it belongs, its source, its maintainers,
/// and the texts of all the patterns that pick packages and of all those that drop packages, in
/// their order.
pub proof fn lemma_profile_syncs_in_full(profile: SyncProfile, print_json: bool, sync: PkgsSync)
    requires
        call_ensures(profile_sync, (profile, print_json), Ok(sync)),
    ensures
        sync.distro == profile.distro,
        sync.suite == profile.suite,
        sync.architecture == profile.architecture,
        sync.source == profile.source,
        sync.maintainers == profile.maintainers,
        sync.print_json == print_json,
        are_patterns_of(sync.pkgs@, profile.pkgs@),
        are_patterns_of(sync.excludes@, profile.excludes@),
{
    lemma_is_sync_of(profile, print_json, sync);
}

/// Whether the packages are to be printed or sent changes nothing else about the sync of a
/// profile; and not whether there is one, unless a pattern has a backslash in it.
pub proof fn lemma_printing_changes_nothing_else(
    profile: SyncProfile,
    printing: bool,
    other: bool,
    first: Result<PkgsSync, Error>,
    second: Result<PkgsSync, Error>,
)
    requires
        call_ensures(profile_sync, (profile, printing), first),
        call_ensures(profile_sync, (profile, other), second),
    ensures
        first is Ok && second is Ok ==> {
            &&& first->Ok_0.distro == second->Ok_0.distro
            &&& first->Ok_0.suite == second->Ok_0.suite
            &&& first->Ok_0.architecture == second->Ok_0.architecture
            &&& first->Ok_0.source == second->Ok_0.source
            &&& first->Ok_0.maintainers == second->Ok_0.maintainers
            &&& first->Ok_0.pkgs@.map_values(|p: Pattern| pattern_source(p))
                == second->Ok_0.pkgs@.map_values(|p: Pattern| pattern_source(p))
            &&& first->Ok_0.excludes@.map_values(|p: Pattern| pattern_source(p))
                == second->Ok_0.excludes@.map_values(|p: Pattern| pattern_source(p))
        },
        backslash_free(profile.pkgs@) && backslash_free(profile.excludes@) ==> {
            &&& first is Ok <==> second is Ok
            &&& first is Err ==> first->Err_0 == second->Err_0
            &&& first is Ok ==> first->Ok_0.pkgs@ == second->Ok_0.pkgs@ && first->Ok_0.excludes@
                == second->Ok_0.excludes@
        },
{
    if first is Ok && second is Ok {
        let one = first->Ok_0;
        let two = second->Ok_0;
        lemma_is_sync_of(profile, printing, one);
        lemma_is_sync_of(profile, other, two);
        assert(one.pkgs@.map_values(|p: Pattern| pattern_source(p)) =~= two.pkgs@.map_values(
            |p: Pattern| pattern_source(p),
        ));
        assert(one.excludes@.map_values(|p: Pattern| pattern_source(p))
            =~= two.excludes@.map_values(|p: Pattern| pattern_source(p)));
    }
    if backslash_free(profile.pkgs@) && backslash_free(profile.excludes@) {
        lemma_profile_outcome(profile, printing, first);
        lemma_profile_outcome(profile, other, second);
        if first is Ok && second is Ok {
            assert(first->Ok_0.pkgs@ =~= second->Ok_0.pkgs@);
            assert(first->Ok_0.excludes@ =~= second->Ok_0.excludes@);
        }
    }
}

/// A profile has a sync if and only if `glob` takes every pattern of it. Else the error is what
/// `glob` says of the first pattern that it refuses, those that pick packages before those that
/// drop them.
pub proof fn lemma_profile_outcome(
    profile: SyncProfile,
    print_json: bool,
    outcome: Result<PkgsSync, Error>,
)
    requires
        backslash_free(profile.pkgs@),
        backslash_free(profile.excludes@),
        call_ensures(profile_sync, (profile, print_json), outcome),
    ensures
        outcome is Ok <==> (forall|i: int|
            0 <= i < profile.pkgs@.len() + profile.excludes@.len() ==> compiled_pattern(
                (#[trigger] (profile.pkgs@ + profile.excludes@)[i])@,
                false,
            ) is Ok),
        forall|i: int|
            0 <= i < profile.pkgs@.len() + profile.excludes@.len() && compiled_pattern(
                (#[trigger] (profile.pkgs@ + profile.excludes@)[i])@,
                false,
            ) is Err && (forall|j: int|
                0 <= j < i ==> compiled_pattern(
                    (#[trigger] (profile.pkgs@ + profile.excludes@)[j])@,
                    false,
                ) is Ok) ==> outcome->Err_0 == Error::Pattern(
                compiled_pattern((profile.pkgs@ + profile.excludes@)[i]@, false)->Err_0,
            ),
        outcome is Err ==> exists|i: int|
            {
                &&& 0 <= i < profile.pkgs@.len() + profile.excludes@.len()
                &&& compiled_pattern(
                    (#[trigger] (profile.pkgs@ + profile.excludes@)[i])@,
                    false,
                ) is Err
                &&& forall|j: int|
                    0 <= j < i ==> compiled_pattern(
                        (#[trigger] (profile.pkgs@ + profile.excludes@)[j])@,
                        false,
                    ) is Ok
            },
{
    let all = profile.pkgs@ + profile.excludes@;
    let n = profile.pkgs@.len();
    assert forall|i: int| 0 <= i < all.len() implies !(#[trigger] all[i])@.contains('\\') by {
        if i < n {
            assert(all[i] == profile.pkgs@[i]);
        } else {
            assert(all[i] == profile.excludes@[i - n]);
        }
    }
    if let Ok(sync) = outcome {
        assert forall|i: int| 0 <= i < all.len() implies compiled_pattern(
            (#[trigger] all[i])@,
            false,
        ) is Ok by {
            if i < n {
                assert(all[i] == profile.pkgs@[i]);
                assert(glob_outcome(profile.pkgs@[i]@, Ok(sync.pkgs@[i])));
            } else {
                assert(all[i] == profile.excludes@[i - n]);
                assert(glob_outcome(profile.excludes@[i - n]@, Ok(sync.excludes@[i - n])));
            }
        }
    } else {
        let refusal = outcome->Err_0->Pattern_0;
        let place = if compiled_from(profile.pkgs@, Err(outcome->Err_0)) {
            choose|i: int| refused_at(profile.pkgs@, i, refusal)
        } else {
            n + choose|i: int| refused_at(profile.excludes@, i, refusal)
        };
        if compiled_from(profile.pkgs@, Err(outcome->Err_0)) {
            assert(refused_at(profile.pkgs@, place, refusal));
            assert(all[place] == profile.pkgs@[place]);
        } else {
            assert(refused_at(profile.excludes@, place - n, refusal));
            assert(all[place] == profile.excludes@[place - n]);
        }
        assert(compiled_pattern(all[place]@, false) == Err::<Pattern, PatternError>(refusal));
        assert forall|j: int| 0 <= j < place implies compiled_pattern(
            (#[trigger] all[j])@,
            false,
        ) is Ok by {
            if j < n {
                assert(all[j] == profile.pkgs@[j]);
                if compiled_from(profile.pkgs@, Err(outcome->Err_0)) {
                    assert(accepted(profile.pkgs@[j]@));
                } else {
                    let picked = choose|picked: Vec<Pattern>| #[trigger]
                        compiled_from(profile.pkgs@, Ok(picked));
                    assert(glob_outcome(profile.pkgs@[j]@, Ok(picked@[j])));
                }
            } else {
                assert(all[j] == profile.excludes@[j - n]);
                assert(accepted(profile.excludes@[j - n]@));
            }
        }
        assert forall|i: int|
            0 <= i < all.len() && compiled_pattern((#[trigger] all[i])@, false) is Err && (forall|
                j: int,
            |
                0 <= j < i ==> compiled_pattern((#[trigger] all[j])@, false)
                    is Ok) implies outcome->Err_0 == Error::Pattern(
            compiled_pattern(all[i]@, false)->Err_0,
        ) by {
            if i < place {
                assert(compiled_pattern(all[i]@, false) is Ok);
            } else if place < i {
                assert(compiled_pattern(all[place]@, false) is Ok);
            }
        }
    }
}

/// What a command does first with a client at hand, told by the command.
pub proof fn lemma_dispatch_asks_for_what_was_given<D>(
    subcommand: SubCommand,
    going_on: (State, Action<D>),
)
    requires
        call_ensures(dispatch::<D>, (subcommand,), going_on),
    ensures
        match subcommand {
            SubCommand::Status => {
                &&& going_on.1 is FindAuthCookie
                &&& going_on.0 == State::Authorizing { request: Authorized::ListWorkers }
            },
            SubCommand::Pkgs(Pkgs::Sync(given)) => {
                &&& going_on.1 is FindAuthCookie
                &&& going_on.0 == State::Authorizing { request: Authorized::Sync(given) }
            },
            SubCommand::Pkgs(Pkgs::SyncProfile(request)) => {
                &&& going_on.1 == Action::<D>::LoadProfiles(request.config_file)
                &&& going_on.0 is LoadingProfiles
                &&& going_on.0->LoadingProfiles_profile == request.profile
                &&& going_on.0->LoadingProfiles_print_json == request.print_json
            },
            SubCommand::Pkgs(Pkgs::Ls(ls)) => {
                &&& going_on.1 is ListPkgs
                &&& going_on.1->ListPkgs_0.name == ls.name
                &&& going_on.1->ListPkgs_0.status == ls.status
                &&& going_on.1->ListPkgs_0.distro == ls.distro
                &&& going_on.1->ListPkgs_0.suite == ls.suite
                &&& going_on.1->ListPkgs_0.architecture == ls.architecture
                &&& ls.json ==> going_on.0 == State::Listing { form: Form::Json }
                &&& !ls.json ==> going_on.0 == State::Listing { form: Form::Pkgs }
            },
            SubCommand::Queue(Queue::Ls(ls)) => {
                &&& going_on.1 is ListQueue
                &&& ls.head ==> going_on.1->ListQueue_0.limit == Some(25i64)
                &&& !ls.head ==> going_on.1->ListQueue_0.limit is None
                &&& ls.json ==> going_on.0 == State::Listing { form: Form::Json }
                &&& !ls.json ==> going_on.0 == State::Listing { form: Form::Queue }
            },
            SubCommand::Queue(Queue::Push(push)) => {
                &&& going_on.1 is FindAuthCookie
                &&& going_on.0 is Authorizing
                &&& going_on.0->Authorizing_request matches Authorized::PushQueue(sent)
                &&& sent.name == push.name
                &&& sent.version == push.version
                &&& sent.distro == push.distro
                &&& sent.suite == push.suite
                &&& sent.architecture == push.architecture
            },
            SubCommand::Queue(Queue::Delete(delete)) => {
                &&& going_on.1 is FindAuthCookie
                &&& going_on.0 is Authorizing
                &&& going_on.0->Authorizing_request matches Authorized::DropQueueItem(sent)
                &&& sent.name == delete.name
                &&& sent.version == delete.version
                &&& sent.distro == delete.distro
                &&& sent.suite == delete.suite
                &&& sent.architecture == delete.architecture
            },
            SubCommand::Completions(completions) => {
                &&& going_on.1 == Action::<D>::GenCompletions(completions)
                &&& going_on.0 is Finishing
            },
        },
{
}

/// What a command does first with the auth cookie at hand, told by what it is about to do. A
/// profile is synced as [`profile_sync`] says, and stops the command if that fails.
pub proof fn lemma_authorize_goes_on_with_the_request<D>(
    request: Authorized,
    going_on: (State, Action<D>),
)
    requires
        call_ensures(authorize::<D>, (request,), going_on),
    ensures
        match request {
            Authorized::ListWorkers => {
                &&& going_on.1 is ListWorkers
                &&& going_on.0 == State::Listing { form: Form::Workers }
            },
            Authorized::Sync(given) => {
                &&& going_on.0 == State::Scheduling { sync: given }
                &&& going_on.1 == Action::<D>::Schedule(given.distro)
            },
            Authorized::SyncProfile(profile, print_json) => match going_on.1 {
                Action::Schedule(distro) => {
                    &&& distro == profile.distro
                    &&& going_on.0 is Scheduling
                    &&& is_sync_of(going_on.0->Scheduling_sync, profile, print_json)
                },
                Action::Fail(error) => going_on.0 is Failed && error is Pattern,
                _ => false,
            },
            Authorized::PushQueue(push) => {
                &&& going_on.1 == Action::<D>::PushQueue(push)
                &&& going_on.0 is Finishing
            },
            Authorized::DropQueueItem(item) => {
                &&& going_on.1 == Action::<D>::DropQueueItem(item)
                &&& going_on.0 is Finishing
            },
        },
{
    if let Authorized::SyncProfile(profile, print_json) = request {
        if going_on.1 is Schedule {
            lemma_is_sync_of(profile, print_json, going_on.0->Scheduling_sync);
        }
    }
}

} // verus!
