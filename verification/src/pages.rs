//! The two pages of a search, and the search that leads from one to the other.
//!
//! A page value stands for "the browser of this driver is on that page". It
//! holds the driver by exclusive reference, so it cannot outlive the session,
//! and while it lives there is no other page, search or step of that driver.
//! It is consumed by the action it allows: a home page allows one search, and
//! the search hands the reference on to the content page it arrives on.

use crate::command::{enter_keys, Command, CommandView, SEARCH_INPUT_ID};
use crate::error::{outcome_view, ErrorKind, ScenarioError, ScenarioErrorView};
use crate::scenario::Stage;
use vstd::prelude::*;

verus! {

/// The browser is on the start page.
#[derive(Debug)]
pub struct WikipediaHomePage<'a, D> {
    driver_ref: &'a mut D,
}

/// The browser is on the page that a search led to.
#[derive(Debug)]
pub struct WikipediaContentPage<'a, D> {
    driver_ref: &'a mut D,
}

/// How far a search has come: what it waits for the session to do.
#[derive(Clone, Copy, Debug, PartialEq, Eq, Structural)]
pub enum SearchStage {
    /// Finding the search field.
    Locating,
    /// Typing the query into it.
    Typing,
    /// Pressing Enter.
    Submitting,
}

/// A search under way. It holds one command for the session; the outcome of
/// that command takes the search one stage on, or ends it.
#[derive(Debug)]
pub struct Search<'a, D> {
    driver_ref: &'a mut D,
    query: String,
    stage: SearchStage,
}

/// A search after one more command: still under way, arrived, or failed.
#[derive(Debug)]
pub enum SearchProgress<'a, D> {
    Pending(Search<'a, D>),
    Done(WikipediaContentPage<'a, D>),
    Failed(ScenarioError),
}

/// A [`Search`] as a mathematical value.
pub struct SearchView<D> {
    pub driver: D,
    pub query: Seq<char>,
    pub stage: SearchStage,
}

/// A [`SearchProgress`] as a mathematical value. `Done` holds the driver
/// whose browser is on the content page.
pub enum SearchProgressView<D> {
    Pending(SearchView<D>),
    Done(D),
    Failed(ScenarioErrorView),
}

/// A search as it starts: nothing has been sent yet.
pub open spec fn search_begin<D>(driver: D, query: Seq<char>) -> SearchView<D> {
    SearchView { driver, query, stage: SearchStage::Locating }
}

/// The command a search holds for the session.
pub open spec fn search_command<D>(search: SearchView<D>) -> CommandView {
    match search.stage {
        SearchStage::Locating => CommandView::FindElementById { id: SEARCH_INPUT_ID@ },
        SearchStage::Typing => CommandView::SendKeys { keys: search.query },
        SearchStage::Submitting => CommandView::SendKeys { keys: enter_keys() },
    }
}

/// The kind of failure that a refused command means at each stage. The kind
/// goes by the command that was refused, not by the session's reason for
/// refusing it: the reason is kept, word for word, as the detail.
pub open spec fn refusal_kind(stage: SearchStage) -> ErrorKind {
    match stage {
        SearchStage::Locating => ErrorKind::ElementLookup,
        SearchStage::Typing => ErrorKind::InputDispatch,
        SearchStage::Submitting => ErrorKind::InputDispatch,
    }
}

/// Where a search stands once the session has answered its command. A refusal
/// ends the search at once; nothing is tried again.
pub open spec fn search_advance<D>(
    search: SearchView<D>,
    outcome: Result<(), Seq<char>>,
) -> SearchProgressView<D> {
    match outcome {
        Err(detail) => SearchProgressView::Failed(
            ScenarioErrorView { kind: refusal_kind(search.stage), detail },
        ),
        Ok(_) => match search.stage {
            SearchStage::Locating => SearchProgressView::Pending(
                SearchView { stage: SearchStage::Typing, ..search },
            ),
            SearchStage::Typing => SearchProgressView::Pending(
                SearchView { stage: SearchStage::Submitting, ..search },
            ),
            SearchStage::Submitting => SearchProgressView::Done(search.driver),
        },
    }
}

impl<'a, D> WikipediaHomePage<'a, D> {
    /// The driver whose browser is on this page.
    pub closed spec fn driver(&self) -> D {
        *self.driver_ref
    }

    /// The reference by which this page holds its driver.
    pub closed spec fn borrowed(self) -> &'a mut D {
        self.driver_ref
    }

    /// The home page of a driver that has been sent to the start page with
    /// [`navigate_to_wikipedia`](crate::command::navigate_to_wikipedia).
    /// `navigation` is the outcome of that command. A refusal is a
    /// navigation failure, and there is no page.
    ///
    /// The page takes the driver over: until the page, or what it turns into,
    /// is given up, nothing else can be made from that driver. The driver
    /// itself is left as it is.
    pub fn from_driver_ref(driver_ref: &'a mut D, navigation: Result<(), String>) -> (page: Result<
        WikipediaHomePage<'a, D>,
        ScenarioError,
    >)
        ensures
            match navigation {
                Ok(_) => page matches Ok(home) && home.driver() == *old(driver_ref)
                    && *final(home.borrowed()) == *final(driver_ref),
                Err(detail) => page matches Err(failure) && failure@ == (ScenarioErrorView {
                    kind: ErrorKind::Navigation,
                    detail: detail@,
                }) && *final(driver_ref) == *old(driver_ref),
            },
    {
        match navigation {
            Ok(_) => Ok(WikipediaHomePage { driver_ref }),
            Err(detail) => Err(ScenarioError { kind: ErrorKind::Navigation, detail }),
        }
    }

    /// Starts the search for `input`. The page is used up: the browser is
    /// about to leave it.
    pub fn search_for(self, input: &str) -> (search: Search<'a, D>)
        ensures
            search@ == search_begin(self.driver(), input@),
            *final(search.borrowed()) == *final(self.borrowed()),
    {
        Search {
            driver_ref: self.driver_ref,
            query: input.to_owned(),
            stage: SearchStage::Locating,
        }
    }

    /// The driver, to give it the commands of this page.
    pub fn driver_ref(&self) -> (driver: &D)
        ensures
            *driver == self.driver(),
    {
        &*self.driver_ref
    }

    /// Gives the page up. The driver is free again, left as it was.
    pub fn leave(self)
        ensures
            *final(self.borrowed()) == self.driver(),
    {
    }

    /// The stage of a scenario that this page stands for.
    pub fn stage(&self) -> (stage: Stage)
        ensures
            stage == Stage::Home,
    {
        Stage::Home
    }
}

impl<'a, D> WikipediaContentPage<'a, D> {
    /// The driver whose browser is on this page.
    pub closed spec fn driver(&self) -> D {
        *self.driver_ref
    }

    /// The reference by which this page holds its driver.
    pub closed spec fn borrowed(self) -> &'a mut D {
        self.driver_ref
    }

    /// The driver, to give it the commands of this page.
    pub fn driver_ref(&self) -> (driver: &D)
        ensures
            *driver == self.driver(),
    {
        &*self.driver_ref
    }

    /// Gives the page up. The driver is free again, left as it was.
    pub fn leave(self)
        ensures
            *final(self.borrowed()) == self.driver(),
    {
    }

    /// The stage of a scenario that this page stands for.
    pub fn stage(&self) -> (stage: Stage)
        ensures
            stage == Stage::Content,
    {
        Stage::Content
    }
}

impl<'a, D> View for Search<'a, D> {
    type V = SearchView<D>;

    closed spec fn view(&self) -> SearchView<D> {
        SearchView { driver: *self.driver_ref, query: self.query@, stage: self.stage }
    }
}

impl<'a, D> View for SearchProgress<'a, D> {
    type V = SearchProgressView<D>;

    open spec fn view(&self) -> SearchProgressView<D> {
        match self {
            SearchProgress::Pending(search) => SearchProgressView::Pending(search@),
            SearchProgress::Done(page) => SearchProgressView::Done(page.driver()),
            SearchProgress::Failed(failure) => SearchProgressView::Failed(failure@),
        }
    }
}

impl<'a, D> Search<'a, D> {
    /// The reference by which this search holds its driver.
    pub closed spec fn borrowed(self) -> &'a mut D {
        self.driver_ref
    }

    /// The command to give the session now.
    pub fn command(&self) -> (command: Command)
        ensures
            command@ == search_command(self@),
    {
        match self.stage {
            SearchStage::Locating => Command::FindElementById { id: SEARCH_INPUT_ID.to_owned() },
            SearchStage::Typing => Command::SendKeys { keys: self.query.clone() },
            SearchStage::Submitting => Command::SendKeys { keys: crate::keys::enter_keys() },
        }
    }

    /// Takes the outcome of [`command`](Search::command) and says what
    /// comes next.
    ///
    /// The driver goes on to the search or the page that comes next. Where
    /// the search fails, the driver is free again, left as it was.
    pub fn advance(self, outcome: Result<(), String>) -> (next: SearchProgress<'a, D>)
        ensures
            next@ == search_advance(self@, outcome_view(outcome)),
            match next {
                SearchProgress::Pending(search) => *final(search.borrowed())
                    == *final(self.borrowed()),
                SearchProgress::Done(page) => *final(page.borrowed()) == *final(self.borrowed()),
                SearchProgress::Failed(_) => *final(self.borrowed()) == self@.driver,
            },
    {
        match outcome {
            Err(detail) => {
                let kind = match self.stage {
                    SearchStage::Locating => ErrorKind::ElementLookup,
                    SearchStage::Typing => ErrorKind::InputDispatch,
                    SearchStage::Submitting => ErrorKind::InputDispatch,
                };
                SearchProgress::Failed(ScenarioError { kind, detail })
            },
            Ok(_) => match self.stage {
                SearchStage::Locating => SearchProgress::Pending(
                    Search {
                        driver_ref: self.driver_ref,
                        query: self.query,
                        stage: SearchStage::Typing,
                    },
                ),
                SearchStage::Typing => SearchProgress::Pending(
                    Search {
                        driver_ref: self.driver_ref,
                        query: self.query,
                        stage: SearchStage::Submitting,
                    },
                ),
                SearchStage::Submitting => SearchProgress::Done(
                    WikipediaContentPage { driver_ref: self.driver_ref },
                ),
            },
        }
    }

    /// The driver, to give it the command of this search.
    pub fn driver_ref(&self) -> (driver: &D)
        ensures
            *driver == self@.driver,
    {
        &*self.driver_ref
    }

    pub fn query(&self) -> (query: &str)
        ensures
            query@ == self@.query,
    {
        self.query.as_str()
    }

    pub fn stage(&self) -> (stage: SearchStage)
        ensures
            stage == self@.stage,
    {
        self.stage
    }
}

} // verus!
