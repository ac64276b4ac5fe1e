//! The ways a scenario can fail.

use vstd::prelude::*;

verus! {

/// Where in a scenario a failure arose.
#[derive(Clone, Copy, Debug, PartialEq, Eq, Structural)]
pub enum ErrorKind {
    /// No browser session could be reached or started.
    SessionEstablishment,
    /// The session did not carry out a navigation.
    Navigation,
    /// The element that was looked for is not on the page.
    ElementLookup,
    /// The session rejected keys that were sent to an element.
    InputDispatch,
    /// The session could not say which address it is on.
    UrlRead,
    /// The browser is on another address than the one expected.
    Assertion,
    /// The session could not be closed.
    SessionClose,
}

/// A failure that ends a scenario.
///
/// `detail` holds what the session reported. For an [`ErrorKind::Assertion`] it
/// holds the address the browser was found on.
#[derive(Debug, PartialEq, Eq)]
pub struct ScenarioError {
    pub kind: ErrorKind,
    pub detail: String,
}

/// A [`ScenarioError`] as a mathematical value.
pub struct ScenarioErrorView {
    pub kind: ErrorKind,
    pub detail: Seq<char>,
}

impl View for ScenarioError {
    type V = ScenarioErrorView;

    open spec fn view(&self) -> ScenarioErrorView {
        ScenarioErrorView { kind: self.kind, detail: self.detail@ }
    }
}

impl Clone for ScenarioError {
    fn clone(&self) -> (copy: ScenarioError)
        ensures
            copy@ == self@,
    {
        ScenarioError { kind: self.kind, detail: self.detail.clone() }
    }
}

/// What a session answers to a command that returns nothing: that it was
/// carried out, or why it was not.
pub open spec fn outcome_view(outcome: Result<(), String>) -> Result<(), Seq<char>> {
    match outcome {
        Ok(_) => Ok(()),
        Err(detail) => Err(detail@),
    }
}

/// What a session answers to any command: the text it returns, which is
/// empty where the command returns nothing, or why it was not carried out.
pub open spec fn reply_view(reply: Result<String, String>) -> Result<Seq<char>, Seq<char>> {
    match reply {
        Ok(text) => Ok(text@),
        Err(detail) => Err(detail@),
    }
}

/// A reply without its text: whether the command was carried out.
pub open spec fn carried_out(reply: Result<Seq<char>, Seq<char>>) -> Result<(), Seq<char>> {
    match reply {
        Ok(_) => Ok(()),
        Err(detail) => Err(detail),
    }
}

/// The result of a step: that it passed, or the failure that ended it.
pub open spec fn result_view(result: Result<(), ScenarioError>) -> Result<(), ScenarioErrorView> {
    match result {
        Ok(_) => Ok(()),
        Err(failure) => Err(failure@),
    }
}

/// A command's outcome as the result of the step it belongs to: a refusal
/// becomes a failure of the given kind, with the session's words as detail.
pub open spec fn classified(kind: ErrorKind, outcome: Result<(), Seq<char>>) -> Result<
    (),
    ScenarioErrorView,
> {
    match outcome {
        Ok(_) => Ok(()),
        Err(detail) => Err(ScenarioErrorView { kind, detail }),
    }
}

impl ScenarioError {
    /// Turns the outcome of a command into the result of its step.
    pub fn classify(kind: ErrorKind, outcome: Result<(), String>) -> (result: Result<
        (),
        ScenarioError,
    >)
        ensures
            result_view(result) == classified(kind, outcome_view(outcome)),
    {
        match outcome {
            Ok(_) => Ok(()),
            Err(detail) => Err(ScenarioError { kind, detail }),
        }
    }
}

} // verus!
