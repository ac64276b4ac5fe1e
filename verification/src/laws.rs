//! What holds of every search and every scenario.

use crate::assertion::{concluded, url_checked, url_verdict, ClosingView, SETTLE_SECONDS};
use crate::command::{enter_keys, CommandView, SEARCH_INPUT_ID, START_URL};
use crate::error::{ErrorKind, ScenarioErrorView};
use crate::pages::{
    refusal_kind, search_advance, search_begin, search_command, SearchProgressView, SearchStage,
    SearchView,
};
use crate::scenario::{
    commands_left, run_advance, run_begin, run_command, Phase, RunProgressView, RunView, Stage,
    StepView,
};
use vstd::prelude::*;

verus! {

/// A search whose commands are all carried out arrives. It asks for the
/// search field, types the query as it was given, presses Enter, and ends on
/// the content page of the driver it started from.
pub proof fn search_arrives<D>(driver: D, query: Seq<char>)
    ensures
        ({
            let locating = search_begin(driver, query);
            let typing = SearchView { stage: SearchStage::Typing, ..locating };
            let submitting = SearchView { stage: SearchStage::Submitting, ..locating };
            &&& search_command(locating) == (CommandView::FindElementById { id: SEARCH_INPUT_ID@ })
            &&& search_advance(locating, Ok(())) == SearchProgressView::Pending(typing)
            &&& search_command(typing) == (CommandView::SendKeys { keys: query })
            &&& search_advance(typing, Ok(())) == SearchProgressView::Pending(submitting)
            &&& search_command(submitting) == (CommandView::SendKeys { keys: enter_keys() })
            &&& search_advance(submitting, Ok(())) == SearchProgressView::Done(driver)
        }),
{
}

/// A refused command ends a search with a failure that carries the session's
/// words: never with a further command, never with a page. Where the search
/// field is not found, the failure is an element-lookup failure.
pub proof fn refusal_ends_search<D>(search: SearchView<D>, detail: Seq<char>)
    ensures
        search_advance(search, Err(detail)) == SearchProgressView::<D>::Failed(
            ScenarioErrorView { kind: refusal_kind(search.stage), detail },
        ),
        search_advance(search_begin(search.driver, search.query), Err(detail))
            == SearchProgressView::<D>::Failed(
            ScenarioErrorView { kind: ErrorKind::ElementLookup, detail },
        ),
{
}

/// Keys go to an element that was found. A search asks for its field first
/// and sends keys only once that lookup was carried out, and a step sends
/// keys nowhere but within such a search.
pub proof fn keys_follow_lookup<D>(
    search: SearchView<D>,
    outcome: Result<(), Seq<char>>,
    run: RunView<D>,
)
    ensures
        search_command(search_begin(search.driver, search.query)) is FindElementById,
        search_command(search) is SendKeys <==> search.stage != SearchStage::Locating,
        search_advance(search, outcome) matches SearchProgressView::Pending(next) ==> outcome is Ok
            && next.stage != SearchStage::Locating,
        run_command(run) is SendKeys ==> (run.phase matches Phase::Searching { stage, .. }
            && stage != SearchStage::Locating),
{
}

/// Navigation is idempotent. Whatever stage the browser is in, a navigation
/// step that is carried out leaves it on the start page and passes; carried
/// out a second time, it asks for the same page, passes again and leaves the
/// browser where the first one did.
pub proof fn navigation_is_idempotent<D>(
    driver: D,
    stage: Stage,
    first: Seq<char>,
    second: Seq<char>,
)
    ensures
        ({
            let once = run_begin(driver, stage, StepView::Navigate);
            let again = run_begin(driver, Stage::Home, StepView::Navigate);
            let home = RunProgressView::<D>::Finished { stage: Stage::Home, result: Ok(()) };
            &&& run_command(once) == (CommandView::NavigateTo { url: START_URL@ })
            &&& run_advance(once, Ok(first)) == home
            &&& run_command(again) == run_command(once)
            &&& run_advance(again, Ok(second)) == home
        }),
{
}

/// A search step whose commands are all carried out goes to the start page,
/// runs the search from there and leaves the browser on the content page.
pub proof fn search_step_arrives<D>(driver: D, stage: Stage, term: Seq<char>, reply: Seq<char>)
    ensures
        ({
            let opening = run_begin(driver, stage, StepView::Search { term });
            let locating = RunView {
                driver,
                stage: Stage::Home,
                phase: Phase::Searching { query: term, stage: SearchStage::Locating },
            };
            let typing = RunView {
                driver,
                stage: Stage::Home,
                phase: Phase::Searching { query: term, stage: SearchStage::Typing },
            };
            let submitting = RunView {
                driver,
                stage: Stage::Home,
                phase: Phase::Searching { query: term, stage: SearchStage::Submitting },
            };
            &&& run_command(opening) == (CommandView::NavigateTo { url: START_URL@ })
            &&& run_advance(opening, Ok(reply)) == RunProgressView::Pending(locating)
            &&& run_command(locating) == (CommandView::FindElementById { id: SEARCH_INPUT_ID@ })
            &&& run_advance(locating, Ok(reply)) == RunProgressView::Pending(typing)
            &&& run_command(typing) == (CommandView::SendKeys { keys: term })
            &&& run_advance(typing, Ok(reply)) == RunProgressView::Pending(submitting)
            &&& run_command(submitting) == (CommandView::SendKeys { keys: enter_keys() })
            &&& run_advance(submitting, Ok(reply)) == RunProgressView::<D>::Finished {
                stage: Stage::Content,
                result: Ok(()),
            }
        }),
{
}

/// No step passes over a refusal. A refused command finishes the step with a
/// failure and leaves the stage as it was. The failure carries the session's
/// words, but for a refusal to close after a failed assertion, where it is
/// the assertion's. The pause before the address is read is no command to the
/// session: nothing can refuse it.
pub proof fn refusal_finishes_step<D>(run: RunView<D>, detail: Seq<char>)
    ensures
        !(run.phase is Settling) ==> {
            &&& run_advance(run, Err(detail)) matches RunProgressView::Finished { stage, result }
            &&& stage == run.stage
            &&& result matches Err(failure)
            &&& match run.phase {
                Phase::Closing { verdict: Some(assertion) } => failure == assertion,
                _ => failure.detail == detail,
            }
        },
{
}

/// Every step comes to an end. A step starts with at most four commands to
/// give, each reply leaves it with one fewer, and the reply to the last one
/// finishes it: no reply makes a step ask again.
pub proof fn step_comes_to_an_end<D>(
    driver: D,
    stage: Stage,
    step: StepView,
    run: RunView<D>,
    reply: Result<Seq<char>, Seq<char>>,
)
    ensures
        1 <= commands_left(run_begin(driver, stage, step)) <= 4,
        1 <= commands_left(run),
        run_advance(run, reply) matches RunProgressView::Pending(next) ==> commands_left(next) + 1
            == commands_left(run),
        commands_left(run) == 1 ==> run_advance(run, reply) is Finished,
{
}

/// The address is compared as text: the assertion passes on the expected
/// address and on no other, and a failed one reports the address found.
pub proof fn assertion_is_exact(expected: Seq<char>, observed: Seq<char>)
    ensures
        url_verdict(expected, observed) is None <==> observed == expected,
        url_verdict(expected, observed) matches Some(failure) ==> failure.kind
            == ErrorKind::Assertion && failure.detail == observed,
        url_checked(expected, Ok(observed)) == Ok::<ClosingView, ScenarioErrorView>(
            ClosingView { verdict: url_verdict(expected, observed) },
        ),
{
}

/// Closing the session never hides the assertion. A failed assertion is the
/// result of the step whether or not the session could be closed, and a
/// passed one is the result wherever the session closed.
pub proof fn closing_keeps_verdict(
    verdict: Option<ScenarioErrorView>,
    closed: Result<(), Seq<char>>,
)
    ensures
        verdict matches Some(failure) ==> concluded(verdict, closed) == Err::<
            (),
            ScenarioErrorView,
        >(failure),
        closed is Ok ==> (concluded(verdict, closed) is Ok <==> verdict is None),
{
}

/// A closing step waits, reads the address, and then closes the session
/// whether the assertion passed or failed. A session that closes is closed
/// from whatever stage it was in, and the step gives the assertion's result.
pub proof fn closing_step_closes<D>(
    driver: D,
    stage: Stage,
    expected: Seq<char>,
    observed: Seq<char>,
    reply: Seq<char>,
)
    ensures
        ({
            let settling = run_begin(driver, stage, StepView::ExpectUrl { url: expected });
            let reading = RunView { driver, stage, phase: Phase::Reading { expected } };
            let verdict = url_verdict(expected, observed);
            let closing = RunView { driver, stage, phase: Phase::Closing { verdict } };
            &&& run_command(settling) == (CommandView::Pause { seconds: SETTLE_SECONDS })
            &&& run_advance(settling, Ok(reply)) == RunProgressView::Pending(reading)
            &&& run_command(reading) == CommandView::GetCurrentUrl
            &&& run_advance(reading, Ok(observed)) == RunProgressView::Pending(closing)
            &&& run_command(closing) == CommandView::CloseWindow
            &&& run_advance(closing, Ok(reply)) == RunProgressView::<D>::Finished {
                stage: Stage::Closed,
                result: match verdict {
                    Some(failure) => Err(failure),
                    None => Ok(()),
                },
            }
        }),
{
}

} // verus!
