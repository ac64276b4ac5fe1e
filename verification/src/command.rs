//! What a browser session can be asked to do.

use vstd::prelude::*;

verus! {

/// The address every scenario starts from.
pub const START_URL: &'static str = "https://www.wikipedia.org/";

/// The `id` attribute of the search field on the start page.
pub const SEARCH_INPUT_ID: &'static str = "searchInput";

/// One request to whoever runs a browser session.
///
/// `SendKeys` goes to the element that the latest `FindElementById` located.
/// `Pause` is not for the session: it asks to let time pass.
#[derive(Debug, PartialEq, Eq)]
pub enum Command {
    /// Load the page at `url`.
    NavigateTo { url: String },
    /// Locate the first element whose `id` attribute is `id`.
    FindElementById { id: String },
    /// Type `keys` into the located element.
    SendKeys { keys: String },
    /// Report the address of the current page.
    GetCurrentUrl,
    /// Close the current window.
    CloseWindow,
    /// Wait for `seconds` seconds.
    Pause { seconds: u64 },
}

/// A [`Command`] as a mathematical value.
pub enum CommandView {
    NavigateTo { url: Seq<char> },
    FindElementById { id: Seq<char> },
    SendKeys { keys: Seq<char> },
    GetCurrentUrl,
    CloseWindow,
    Pause { seconds: u64 },
}

impl View for Command {
    type V = CommandView;

    open spec fn view(&self) -> CommandView {
        match self {
            Command::NavigateTo { url } => CommandView::NavigateTo { url: url@ },
            Command::FindElementById { id } => CommandView::FindElementById { id: id@ },
            Command::SendKeys { keys } => CommandView::SendKeys { keys: keys@ },
            Command::GetCurrentUrl => CommandView::GetCurrentUrl,
            Command::CloseWindow => CommandView::CloseWindow,
            Command::Pause { seconds } => CommandView::Pause { seconds: *seconds },
        }
    }
}

impl Clone for Command {
    fn clone(&self) -> (copy: Command)
        ensures
            copy@ == self@,
    {
        match self {
            Command::NavigateTo { url } => Command::NavigateTo { url: url.clone() },
            Command::FindElementById { id } => Command::FindElementById { id: id.clone() },
            Command::SendKeys { keys } => Command::SendKeys { keys: keys.clone() },
            Command::GetCurrentUrl => Command::GetCurrentUrl,
            Command::CloseWindow => Command::CloseWindow,
            Command::Pause { seconds } => Command::Pause { seconds: *seconds },
        }
    }
}

/// The text that stands for the Enter key: the single character U+E007.
pub open spec fn enter_keys() -> Seq<char> {
    seq!['\u{e007}']
}

/// The command that takes a session to the start page. It is the same command
/// every time, whatever page the session is on.
pub fn navigate_to_wikipedia() -> (command: Command)
    ensures
        command@ == (CommandView::NavigateTo { url: START_URL@ }),
{
    Command::NavigateTo { url: START_URL.to_owned() }
}

} // verus!
