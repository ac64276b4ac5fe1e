//! The course of one scenario: its steps, the commands each step gives the
//! session, and the stage each leaves the browser in.
//!
//! A step runs as a [`Run`]. The run holds one command; the reply to that
//! command takes the run on to its next command or finishes it. Nothing is
//! tried twice: the first refusal finishes the step with a failure.
//!
//! A run holds its scenario by exclusive reference. While it is under way
//! there is no other step of that scenario, and no page or search of its
//! driver but the one the run itself holds.

use crate::assertion::{concluded, url_checked, Closing, UrlCheck, SETTLE_SECONDS};
use crate::command::{navigate_to_wikipedia, Command, CommandView, START_URL};
use crate::error::{
    carried_out, reply_view, result_view, ErrorKind, ScenarioError, ScenarioErrorView,
};
use crate::pages::{
    search_advance, search_begin, search_command, Search, SearchProgress, SearchProgressView,
    SearchStage, SearchView, WikipediaHomePage,
};
use vstd::prelude::*;

verus! {

/// Where the browser of a session is.
#[derive(Clone, Copy, Debug, PartialEq, Eq, Structural)]
pub enum Stage {
    /// The session is open; nothing has been loaded.
    Start,
    /// On the start page.
    Home,
    /// On the page a search led to.
    Content,
    /// The session has been closed.
    Closed,
}

/// One scenario: the driver of its session, and where its browser is. A
/// scenario has its own session from its first step to its last.
#[derive(Debug)]
pub struct Context<D> {
    pub driver: D,
    pub stage: Stage,
}

/// A step of a scenario.
#[derive(Debug, PartialEq, Eq)]
pub enum Step {
    /// Go to the start page.
    Navigate,
    /// Go to the start page and search it for `term`.
    Search { term: String },
    /// Find the browser on `url`, then close the session.
    ExpectUrl { url: String },
}

/// A [`Step`] as a mathematical value.
pub enum StepView {
    Navigate,
    Search { term: Seq<char> },
    ExpectUrl { url: Seq<char> },
}

impl View for Step {
    type V = StepView;

    open spec fn view(&self) -> StepView {
        match self {
            Step::Navigate => StepView::Navigate,
            Step::Search { term } => StepView::Search { term: term@ },
            Step::ExpectUrl { url } => StepView::ExpectUrl { url: url@ },
        }
    }
}

impl Clone for Step {
    fn clone(&self) -> (copy: Step)
        ensures
            copy@ == self@,
    {
        match self {
            Step::Navigate => Step::Navigate,
            Step::Search { term } => Step::Search { term: term.clone() },
            Step::ExpectUrl { url } => Step::ExpectUrl { url: url.clone() },
        }
    }
}

/// What a run waits for.
pub enum Phase {
    /// A navigation step: the start page is loading.
    Navigating,
    /// A search step: the start page is loading, `term` is yet to be typed.
    Opening { term: Seq<char> },
    /// A search step on the start page, with the search at `stage`.
    Searching { query: Seq<char>, stage: SearchStage },
    /// A closing step: the browser is given time to settle.
    Settling { expected: Seq<char> },
    /// A closing step: the address is being read.
    Reading { expected: Seq<char> },
    /// A closing step: the address has been compared with this verdict, the
    /// session is closing.
    Closing { verdict: Option<ScenarioErrorView> },
}

/// A [`Run`] as a mathematical value: the driver, the stage its browser is
/// known to be in, and what the run waits for.
pub struct RunView<D> {
    pub driver: D,
    pub stage: Stage,
    pub phase: Phase,
}

/// A [`RunProgress`] as a mathematical value.
pub enum RunProgressView<D> {
    Pending(RunView<D>),
    Finished { stage: Stage, result: Result<(), ScenarioErrorView> },
}

/// A step as it starts, for the browser of `driver` in `stage`.
pub open spec fn run_begin<D>(driver: D, stage: Stage, step: StepView) -> RunView<D> {
    RunView {
        driver,
        stage,
        phase: match step {
            StepView::Navigate => Phase::Navigating,
            StepView::Search { term } => Phase::Opening { term },
            StepView::ExpectUrl { url } => Phase::Settling { expected: url },
        },
    }
}

/// The command a run holds.
pub open spec fn run_command<D>(run: RunView<D>) -> CommandView {
    match run.phase {
        Phase::Navigating => CommandView::NavigateTo { url: START_URL@ },
        Phase::Opening { term } => CommandView::NavigateTo { url: START_URL@ },
        Phase::Searching { query, stage } => search_command(
            SearchView { driver: run.driver, query, stage },
        ),
        Phase::Settling { expected } => CommandView::Pause { seconds: SETTLE_SECONDS },
        Phase::Reading { expected } => CommandView::GetCurrentUrl,
        Phase::Closing { verdict } => CommandView::CloseWindow,
    }
}

/// How many commands a run has yet to give at most, the one it holds
/// included. No step gives more than four.
pub open spec fn commands_left<D>(run: RunView<D>) -> nat {
    match run.phase {
        Phase::Navigating => 1,
        Phase::Opening { term } => 4,
        Phase::Searching { query, stage } => match stage {
            SearchStage::Locating => 3,
            SearchStage::Typing => 2,
            SearchStage::Submitting => 1,
        },
        Phase::Settling { expected } => 3,
        Phase::Reading { expected } => 2,
        Phase::Closing { verdict } => 1,
    }
}

/// Where a run stands once its command has been answered.
///
/// The stage follows what the session has confirmed: a navigation that was
/// carried out leaves the browser on the start page, a search that was
/// carried out to its end on the content page, a close leaves the session
/// closed. A refusal leaves the stage as it was and finishes the step with
/// the failure. The pause is the one command whose reply is of no account.
pub open spec fn run_advance<D>(
    run: RunView<D>,
    reply: Result<Seq<char>, Seq<char>>,
) -> RunProgressView<D> {
    match run.phase {
        Phase::Navigating => match reply {
            Ok(_) => RunProgressView::Finished { stage: Stage::Home, result: Ok(()) },
            Err(detail) => RunProgressView::Finished {
                stage: run.stage,
                result: Err(ScenarioErrorView { kind: ErrorKind::Navigation, detail }),
            },
        },
        Phase::Opening { term } => match reply {
            Ok(_) => {
                let search = search_begin(run.driver, term);
                RunProgressView::Pending(
                    RunView {
                        driver: run.driver,
                        stage: Stage::Home,
                        phase: Phase::Searching { query: search.query, stage: search.stage },
                    },
                )
            },
            Err(detail) => RunProgressView::Finished {
                stage: run.stage,
                result: Err(ScenarioErrorView { kind: ErrorKind::Navigation, detail }),
            },
        },
        Phase::Searching { query, stage } => match search_advance(
            SearchView { driver: run.driver, query, stage },
            carried_out(reply),
        ) {
            SearchProgressView::Pending(search) => RunProgressView::Pending(
                RunView {
                    driver: run.driver,
                    stage: run.stage,
                    phase: Phase::Searching { query: search.query, stage: search.stage },
                },
            ),
            SearchProgressView::Done(_) => RunProgressView::Finished {
                stage: Stage::Content,
                result: Ok(()),
            },
            SearchProgressView::Failed(failure) => RunProgressView::Finished {
                stage: run.stage,
                result: Err(failure),
            },
        },
        Phase::Settling { expected } => RunProgressView::Pending(
            RunView { driver: run.driver, stage: run.stage, phase: Phase::Reading { expected } },
        ),
        Phase::Reading { expected } => match url_checked(expected, reply) {
            Ok(closing) => RunProgressView::Pending(
                RunView {
                    driver: run.driver,
                    stage: run.stage,
                    phase: Phase::Closing { verdict: closing.verdict },
                },
            ),
            Err(failure) => RunProgressView::Finished { stage: run.stage, result: Err(failure) },
        },
        Phase::Closing { verdict } => RunProgressView::Finished {
            stage: if reply is Ok {
                Stage::Closed
            } else {
                run.stage
            },
            result: concluded(verdict, carried_out(reply)),
        },
    }
}

/// A step under way.
#[derive(Debug)]
pub struct Run<'a, D> {
    stage: Stage,
    state: RunState<'a, D>,
}

#[derive(Debug)]
enum RunState<'a, D> {
    Navigating { driver_ref: &'a mut D },
    Opening { driver_ref: &'a mut D, term: String },
    Searching { search: Search<'a, D> },
    Settling { driver_ref: &'a mut D, check: UrlCheck },
    Reading { driver_ref: &'a mut D, check: UrlCheck },
    Closing { driver_ref: &'a mut D, closing: Closing },
}

/// A step after one more reply: still under way, or finished with its
/// result and the stage it leaves the browser in.
#[derive(Debug)]
pub enum RunProgress<'a, D> {
    Pending(Run<'a, D>),
    Finished { stage: Stage, result: Result<(), ScenarioError> },
}

impl<'a, D> RunState<'a, D> {
    spec fn borrowed(self) -> &'a mut D {
        match self {
            RunState::Navigating { driver_ref } => driver_ref,
            RunState::Opening { driver_ref, term } => driver_ref,
            RunState::Searching { search } => search.borrowed(),
            RunState::Settling { driver_ref, check } => driver_ref,
            RunState::Reading { driver_ref, check } => driver_ref,
            RunState::Closing { driver_ref, closing } => driver_ref,
        }
    }

    spec fn driver(&self) -> D {
        match self {
            RunState::Navigating { driver_ref } => **driver_ref,
            RunState::Opening { driver_ref, term } => **driver_ref,
            RunState::Searching { search } => search@.driver,
            RunState::Settling { driver_ref, check } => **driver_ref,
            RunState::Reading { driver_ref, check } => **driver_ref,
            RunState::Closing { driver_ref, closing } => **driver_ref,
        }
    }

    spec fn phase(&self) -> Phase {
        match self {
            RunState::Navigating { driver_ref } => Phase::Navigating,
            RunState::Opening { driver_ref, term } => Phase::Opening { term: term@ },
            RunState::Searching { search } => Phase::Searching {
                query: search@.query,
                stage: search@.stage,
            },
            RunState::Settling { driver_ref, check } => Phase::Settling {
                expected: check.expected(),
            },
            RunState::Reading { driver_ref, check } => Phase::Reading {
                expected: check.expected(),
            },
            RunState::Closing { driver_ref, closing } => Phase::Closing {
                verdict: closing@.verdict,
            },
        }
    }
}

impl<'a, D> View for Run<'a, D> {
    type V = RunView<D>;

    closed spec fn view(&self) -> RunView<D> {
        RunView { driver: self.state.driver(), stage: self.stage, phase: self.state.phase() }
    }
}

impl<'a, D> View for RunProgress<'a, D> {
    type V = RunProgressView<D>;

    open spec fn view(&self) -> RunProgressView<D> {
        match self {
            RunProgress::Pending(run) => RunProgressView::Pending(run@),
            RunProgress::Finished { stage, result } => RunProgressView::Finished {
                stage: *stage,
                result: result_view(*result),
            },
        }
    }
}

impl<D> Context<D> {
    /// The context of a scenario whose session has just been asked for.
    /// `connected` is the outcome of opening it: the driver, or why there is
    /// none. Without a session there is no scenario.
    pub fn begin(connected: Result<D, String>) -> (context: Result<Context<D>, ScenarioError>)
        ensures
            match connected {
                Ok(driver) => context matches Ok(opened) && opened.driver == driver && opened.stage
                    == Stage::Start,
                Err(detail) => context matches Err(failure) && failure@ == (ScenarioErrorView {
                    kind: ErrorKind::SessionEstablishment,
                    detail: detail@,
                }),
            },
    {
        match connected {
            Ok(driver) => Ok(Context { driver, stage: Stage::Start }),
            Err(detail) => Err(ScenarioError { kind: ErrorKind::SessionEstablishment, detail }),
        }
    }

    /// Starts a step. The run takes the scenario over: until it has
    /// finished or is given up, no other step can start. It leaves the
    /// driver as it is, and the stage too: the stage the run finishes with is
    /// for the caller to put down as the stage of the scenario.
    pub fn start<'a>(&'a mut self, step: Step) -> (run: Run<'a, D>)
        ensures
            run@ == run_begin(old(self).driver, old(self).stage, step@),
            final(self).stage == old(self).stage,
            final(self).driver == *final(run.borrowed()),
    {
        let stage = self.stage;
        let driver_ref = &mut self.driver;
        let state = match step {
            Step::Navigate => RunState::Navigating { driver_ref },
            Step::Search { term } => RunState::Opening { driver_ref, term },
            Step::ExpectUrl { url } => RunState::Settling {
                driver_ref,
                check: UrlCheck::expecting(url.as_str()),
            },
        };
        Run { stage, state }
    }
}

impl<'a, D> Run<'a, D> {
    /// The reference by which this run holds the driver of its scenario.
    pub closed spec fn borrowed(self) -> &'a mut D {
        self.state.borrowed()
    }

    /// The command to have carried out now.
    pub fn command(&self) -> (command: Command)
        ensures
            command@ == run_command(self@),
    {
        match &self.state {
            RunState::Navigating { driver_ref } => navigate_to_wikipedia(),
            RunState::Opening { driver_ref, term } => navigate_to_wikipedia(),
            RunState::Searching { search } => search.command(),
            RunState::Settling { driver_ref, check } => Command::Pause {
                seconds: check.delay_seconds(),
            },
            RunState::Reading { driver_ref, check } => check.command(),
            RunState::Closing { driver_ref, closing } => closing.command(),
        }
    }

    /// Takes the reply to [`command`](Run::command) and says what comes
    /// next.
    ///
    /// The driver goes on to the run that comes next. Where the step has
    /// finished, the driver is free again, left as it was.
    pub fn advance(self, reply: Result<String, String>) -> (next: RunProgress<'a, D>)
        ensures
            next@ == run_advance(self@, reply_view(reply)),
            match next {
                RunProgress::Pending(run) => *final(run.borrowed()) == *final(self.borrowed()),
                RunProgress::Finished { .. } => *final(self.borrowed()) == self@.driver,
            },
    {
        let stage = self.stage;
        match self.state {
            RunState::Navigating { driver_ref } => match reply {
                Ok(_) => RunProgress::Finished { stage: Stage::Home, result: Ok(()) },
                Err(detail) => RunProgress::Finished {
                    stage,
                    result: Err(ScenarioError { kind: ErrorKind::Navigation, detail }),
                },
            },
            RunState::Opening { driver_ref, term } => {
                let navigation = match reply {
                    Ok(_) => Ok(()),
                    Err(detail) => Err(detail),
                };
                match WikipediaHomePage::from_driver_ref(driver_ref, navigation) {
                    Ok(page) => {
                        let stage = page.stage();
                        let search = page.search_for(term.as_str());
                        RunProgress::Pending(Run { stage, state: RunState::Searching { search } })
                    },
                    Err(failure) => RunProgress::Finished { stage, result: Err(failure) },
                }
            },
            RunState::Searching { search } => {
                let outcome = match reply {
                    Ok(_) => Ok(()),
                    Err(detail) => Err(detail),
                };
                match search.advance(outcome) {
                    SearchProgress::Pending(search) => RunProgress::Pending(
                        Run { stage, state: RunState::Searching { search } },
                    ),
                    SearchProgress::Done(page) => {
                        let stage = page.stage();
                        page.leave();
                        RunProgress::Finished { stage, result: Ok(()) }
                    },
                    SearchProgress::Failed(failure) => RunProgress::Finished {
                        stage,
                        result: Err(failure),
                    },
                }
            },
            RunState::Settling { driver_ref, check } => RunProgress::Pending(
                Run { stage, state: RunState::Reading { driver_ref, check } },
            ),
            RunState::Reading { driver_ref, check } => match check.observed(reply) {
                Ok(closing) => RunProgress::Pending(
                    Run { stage, state: RunState::Closing { driver_ref, closing } },
                ),
                Err(failure) => RunProgress::Finished { stage, result: Err(failure) },
            },
            RunState::Closing { driver_ref, closing } => {
                let (stage, outcome) = match reply {
                    Ok(_) => (Stage::Closed, Ok(())),
                    Err(detail) => (stage, Err(detail)),
                };
                RunProgress::Finished { stage, result: closing.closed(outcome) }
            },
        }
    }

    /// The driver, to give it the command of this run.
    pub fn driver_ref(&self) -> (driver: &D)
        ensures
            *driver == self@.driver,
    {
        match &self.state {
            RunState::Navigating { driver_ref } => &**driver_ref,
            RunState::Opening { driver_ref, term } => &**driver_ref,
            RunState::Searching { search } => search.driver_ref(),
            RunState::Settling { driver_ref, check } => &**driver_ref,
            RunState::Reading { driver_ref, check } => &**driver_ref,
            RunState::Closing { driver_ref, closing } => &**driver_ref,
        }
    }

    /// The stage the browser is known to be in.
    pub fn stage(&self) -> (stage: Stage)
        ensures
            stage == self@.stage,
    {
        self.stage
    }
}

} // verus!
