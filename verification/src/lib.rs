//! Page objects for a Wikipedia search driven through a WebDriver session.
//!
//! The crate never talks to a browser. It says which command a session is to
//! be given next, and what follows from the answer: the page the browser is on,
//! or the error that ends the scenario. Whoever owns the session runs the
//! commands and reports back what became of them.
//!
//! A driver has one page, search or step at a time: each holds the driver by
//! exclusive reference and hands it on to what it turns into.
//!
//! - [`pages`]: the home page, the content page, and the search between them.
//! - [`assertion`]: the comparison of the browser's address with an expected
//!   one, and the closing of the session.
//! - [`scenario`]: the steps of a scenario, each run command by command, and
//!   the stage each leaves the browser in.
//! - [`command`] and [`error`]: what is asked of a session, and what can go
//!   wrong.
//! - [`laws`]: what holds of every search and every step, proved.

pub mod assertion;
pub mod command;
pub mod error;
mod keys;
pub mod laws;
pub mod pages;
pub mod scenario;

pub use assertion::{Closing, UrlCheck, SETTLE_SECONDS};
pub use command::{navigate_to_wikipedia, Command, SEARCH_INPUT_ID, START_URL};
pub use error::{ErrorKind, ScenarioError};
pub use pages::{Search, SearchProgress, SearchStage, WikipediaContentPage, WikipediaHomePage};
pub use scenario::{Context, Run, RunProgress, Stage, Step};
