//! The closing step of a scenario: the browser's address is compared with
//! the expected one, and the session is closed.

use crate::command::{Command, CommandView};
use crate::error::{
    classified, outcome_view, reply_view, result_view, ErrorKind, ScenarioError, ScenarioErrorView,
};
use vstd::prelude::*;

verus! {

/// How long the browser is given to follow redirects before its address is
/// read, in seconds. The wait is a plain pause: nothing is polled.
pub const SETTLE_SECONDS: u64 = 5;

/// The closing step of a scenario, before the browser's address is known.
#[derive(Debug)]
pub struct UrlCheck {
    expected: String,
}

/// The closing step once the address has been compared: the session is to be
/// closed, whatever the comparison gave.
#[derive(Debug)]
pub struct Closing {
    verdict: Option<ScenarioError>,
}

/// A [`Closing`] as a mathematical value: the failed assertion, or `None`
/// where the address was the expected one.
pub struct ClosingView {
    pub verdict: Option<ScenarioErrorView>,
}

/// The comparison itself: the two addresses are the same text, or the
/// assertion fails and reports the address found.
pub open spec fn url_verdict(expected: Seq<char>, observed: Seq<char>) -> Option<
    ScenarioErrorView,
> {
    if observed == expected {
        None
    } else {
        Some(ScenarioErrorView { kind: ErrorKind::Assertion, detail: observed })
    }
}

/// What follows from the session's answer. Where the address could not be
/// read, the step ends there, and nothing is compared or closed.
pub open spec fn url_checked(
    expected: Seq<char>,
    observed: Result<Seq<char>, Seq<char>>,
) -> Result<ClosingView, ScenarioErrorView> {
    match observed {
        Ok(url) => Ok(ClosingView { verdict: url_verdict(expected, url) }),
        Err(detail) => Err(ScenarioErrorView { kind: ErrorKind::UrlRead, detail }),
    }
}

/// The result of the step. A failed assertion is the result, whatever became
/// of closing the session; after a passed one, a refusal to close is.
pub open spec fn concluded(
    verdict: Option<ScenarioErrorView>,
    closed: Result<(), Seq<char>>,
) -> Result<(), ScenarioErrorView> {
    match verdict {
        Some(failure) => Err(failure),
        None => classified(ErrorKind::SessionClose, closed),
    }
}

impl UrlCheck {
    /// The address that the browser is expected to be on.
    pub closed spec fn expected(&self) -> Seq<char> {
        self.expected@
    }

    pub fn expecting(url: &str) -> (check: UrlCheck)
        ensures
            check.expected() == url@,
    {
        UrlCheck { expected: url.to_owned() }
    }

    /// The pause to make before the address is asked for.
    pub fn delay_seconds(&self) -> (seconds: u64)
        ensures
            seconds == SETTLE_SECONDS,
    {
        SETTLE_SECONDS
    }

    /// The command to give the session when the pause is over.
    pub fn command(&self) -> (command: Command)
        ensures
            command@ == CommandView::GetCurrentUrl,
    {
        Command::GetCurrentUrl
    }

    /// Takes the outcome of [`command`](UrlCheck::command) and compares.
    pub fn observed(self, reading: Result<String, String>) -> (next: Result<
        Closing,
        ScenarioError,
    >)
        ensures
            closing_view(next) == url_checked(self.expected(), reply_view(reading)),
    {
        match reading {
            Ok(url) => {
                let verdict = if url == self.expected {
                    None
                } else {
                    Some(ScenarioError { kind: ErrorKind::Assertion, detail: url })
                };
                Ok(Closing { verdict })
            },
            Err(detail) => Err(ScenarioError { kind: ErrorKind::UrlRead, detail }),
        }
    }
}

impl View for Closing {
    type V = ClosingView;

    closed spec fn view(&self) -> ClosingView {
        ClosingView {
            verdict: match self.verdict {
                Some(failure) => Some(failure@),
                None => None,
            },
        }
    }
}

/// The outcome of [`UrlCheck::observed`] as a mathematical value.
pub open spec fn closing_view(next: Result<Closing, ScenarioError>) -> Result<
    ClosingView,
    ScenarioErrorView,
> {
    match next {
        Ok(closing) => Ok(closing@),
        Err(failure) => Err(failure@),
    }
}

impl Closing {
    /// Whether the browser was on the expected address.
    pub fn passed(&self) -> (passed: bool)
        ensures
            passed == (self@.verdict is None),
    {
        self.verdict.is_none()
    }

    /// The command to give the session now.
    pub fn command(&self) -> (command: Command)
        ensures
            command@ == CommandView::CloseWindow,
    {
        Command::CloseWindow
    }

    /// Takes the outcome of [`command`](Closing::command) and gives the
    /// result of the step.
    pub fn closed(self, outcome: Result<(), String>) -> (result: Result<(), ScenarioError>)
        ensures
            result_view(result) == concluded(self@.verdict, outcome_view(outcome)),
    {
        match self.verdict {
            Some(failure) => Err(failure),
            None => ScenarioError::classify(ErrorKind::SessionClose, outcome),
        }
    }
}

} // verus!
