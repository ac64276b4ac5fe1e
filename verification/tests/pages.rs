use std::cell::Cell;
use wikipedia_pages::{
    navigate_to_wikipedia, Command, ErrorKind, ScenarioError, Search, SearchProgress, SearchStage,
    Stage, Step, WikipediaHomePage, SEARCH_INPUT_ID, START_URL,
};

fn home(driver: &mut u32) -> WikipediaHomePage<'_, u32> {
    WikipediaHomePage::from_driver_ref(driver, Ok(())).expect("navigation was confirmed")
}

fn pending<'a>(progress: SearchProgress<'a, u32>) -> Search<'a, u32> {
    match progress {
        SearchProgress::Pending(search) => search,
        other => panic!("the search is not under way: {:?}", other),
    }
}

fn failed(progress: SearchProgress<'_, u32>) -> ScenarioError {
    match progress {
        SearchProgress::Failed(failure) => failure,
        other => panic!("the search did not fail: {:?}", other),
    }
}

#[test]
fn start_page_is_wikipedia() {
    assert_eq!(START_URL, "https://www.wikipedia.org/");
    assert_eq!(SEARCH_INPUT_ID, "searchInput");
}

#[test]
fn navigation_goes_to_start_page() {
    assert_eq!(
        navigate_to_wikipedia(),
        Command::NavigateTo { url: String::from("https://www.wikipedia.org/") }
    );
}

#[test]
fn navigation_is_the_same_command_every_time() {
    assert_eq!(navigate_to_wikipedia(), navigate_to_wikipedia());
}

#[test]
fn confirmed_navigation_gives_home_page_of_that_driver() {
    let mut driver: Cell<u32> = Cell::new(0);
    let page = WikipediaHomePage::from_driver_ref(&mut driver, Ok(())).unwrap();
    assert_eq!(page.stage(), Stage::Home);
    page.driver_ref().set(34);
    page.leave();
    assert_eq!(driver.get(), 34);
}

#[test]
fn refused_navigation_gives_no_page() {
    let mut driver: u32 = 34;
    let page =
        WikipediaHomePage::from_driver_ref(&mut driver, Err(String::from("connection reset")));
    assert_eq!(
        page.unwrap_err(),
        ScenarioError { kind: ErrorKind::Navigation, detail: String::from("connection reset") }
    );
    assert_eq!(driver, 34);
}

#[test]
fn driver_is_free_for_a_new_home_page_once_the_first_is_left() {
    let mut driver: u32 = 34;
    let first = WikipediaHomePage::from_driver_ref(&mut driver, Ok(())).unwrap();
    assert_eq!(*first.driver_ref(), 34);
    first.leave();
    let second = WikipediaHomePage::from_driver_ref(&mut driver, Ok(())).unwrap();
    assert_eq!(second.stage(), Stage::Home);
    assert_eq!(*second.driver_ref(), 34);
}

#[test]
fn driver_is_free_again_once_a_search_has_failed() {
    let mut driver: u32 = 34;
    let search = home(&mut driver).search_for("cat");
    let failure = failed(search.advance(Err(String::from("no such element"))));
    assert_eq!(failure.kind, ErrorKind::ElementLookup);
    let search = home(&mut driver).search_for("dog");
    assert_eq!(search.query(), "dog");
    assert_eq!(search.stage(), SearchStage::Locating);
}

#[test]
fn driver_is_free_again_once_the_content_page_is_left() {
    let mut driver: u32 = 34;
    let search = pending(home(&mut driver).search_for("cat").advance(Ok(())));
    let search = pending(search.advance(Ok(())));
    match search.advance(Ok(())) {
        SearchProgress::Done(page) => page.leave(),
        other => panic!("the search did not arrive: {:?}", other),
    }
    driver += 1;
    assert_eq!(*home(&mut driver).driver_ref(), 35);
}

#[test]
fn search_starts_by_locating_the_field() {
    let mut driver: u32 = 1;
    let search = home(&mut driver).search_for("cat");
    assert_eq!(search.stage(), SearchStage::Locating);
    assert_eq!(search.query(), "cat");
    assert_eq!(*search.driver_ref(), 1);
    assert_eq!(search.command(), Command::FindElementById { id: String::from("searchInput") });
}

#[test]
fn search_types_the_query_once_the_field_is_found() {
    let mut driver: u32 = 1;
    let search = pending(home(&mut driver).search_for("cat").advance(Ok(())));
    assert_eq!(search.stage(), SearchStage::Typing);
    assert_eq!(search.query(), "cat");
    assert_eq!(search.command(), Command::SendKeys { keys: String::from("cat") });
}

#[test]
fn search_presses_enter_once_the_query_is_typed() {
    let mut driver: u32 = 1;
    let search = pending(home(&mut driver).search_for("cat").advance(Ok(())));
    let search = pending(search.advance(Ok(())));
    assert_eq!(search.stage(), SearchStage::Submitting);
    assert_eq!(search.command(), Command::SendKeys { keys: String::from("\u{e007}") });
}

#[test]
fn enter_is_the_key_the_webdriver_client_sends() {
    let mut driver: u32 = 1;
    let search = pending(home(&mut driver).search_for("dog").advance(Ok(())));
    let search = pending(search.advance(Ok(())));
    let sent = match search.command() {
        Command::SendKeys { keys } => keys,
        other => panic!("not a key press: {:?}", other),
    };
    assert_eq!(sent.chars().collect::<Vec<char>>(), vec![thirtyfour::Keys::Enter.value()]);
    assert_eq!(sent, thirtyfour::TypingData::from(thirtyfour::Keys::Enter).to_string());
    assert_ne!(sent, "dog");
}

#[test]
fn search_arrives_on_content_page_of_same_driver() {
    let mut driver: Cell<u32> = Cell::new(7);
    let page = WikipediaHomePage::from_driver_ref(&mut driver, Ok(())).unwrap();
    let mut progress = SearchProgress::Pending(page.search_for("cat"));
    for _ in 0..3 {
        progress = match progress {
            SearchProgress::Pending(search) => search.advance(Ok(())),
            other => panic!("the search is over: {:?}", other),
        };
    }
    match progress {
        SearchProgress::Done(page) => {
            assert_eq!(page.stage(), Stage::Content);
            page.driver_ref().set(8);
            page.leave();
        },
        other => panic!("the search did not arrive: {:?}", other),
    }
    assert_eq!(driver.get(), 8);
}

#[test]
fn missing_field_is_an_element_lookup_failure() {
    let mut driver: u32 = 1;
    let search = home(&mut driver).search_for("cat");
    let failure = failed(search.advance(Err(String::from("no such element: searchInput"))));
    assert_eq!(
        failure,
        ScenarioError {
            kind: ErrorKind::ElementLookup,
            detail: String::from("no such element: searchInput"),
        }
    );
}

#[test]
fn refused_query_is_an_input_dispatch_failure() {
    let mut driver: u32 = 1;
    let search = pending(home(&mut driver).search_for("cat").advance(Ok(())));
    let failure = failed(search.advance(Err(String::from("element not interactable"))));
    assert_eq!(
        failure,
        ScenarioError {
            kind: ErrorKind::InputDispatch,
            detail: String::from("element not interactable"),
        }
    );
}

#[test]
fn refused_enter_is_an_input_dispatch_failure() {
    let mut driver: u32 = 1;
    let search = pending(home(&mut driver).search_for("cat").advance(Ok(())));
    let search = pending(search.advance(Ok(())));
    let failure = failed(search.advance(Err(String::from("stale element reference"))));
    assert_eq!(
        failure,
        ScenarioError {
            kind: ErrorKind::InputDispatch,
            detail: String::from("stale element reference"),
        }
    );
}

#[test]
fn query_is_typed_as_given() {
    let mut driver: u32 = 1;
    let term = "Schr\u{f6}dinger's  cat\t";
    let search = pending(home(&mut driver).search_for(term).advance(Ok(())));
    assert_eq!(search.command(), Command::SendKeys { keys: String::from(term) });
}

#[test]
fn empty_query_is_typed_as_nothing() {
    let mut driver: u32 = 1;
    let search = pending(home(&mut driver).search_for("").advance(Ok(())));
    assert_eq!(search.command(), Command::SendKeys { keys: String::new() });
    let search = pending(search.advance(Ok(())));
    assert_eq!(search.command(), Command::SendKeys { keys: String::from("\u{e007}") });
}

#[test]
fn classify_passes_success_and_names_refusal() {
    assert_eq!(ScenarioError::classify(ErrorKind::Navigation, Ok(())), Ok(()));
    assert_eq!(
        ScenarioError::classify(ErrorKind::Navigation, Err(String::from("dns"))),
        Err(ScenarioError { kind: ErrorKind::Navigation, detail: String::from("dns") })
    );
    assert_eq!(
        ScenarioError::classify(ErrorKind::InputDispatch, Err(String::new())),
        Err(ScenarioError { kind: ErrorKind::InputDispatch, detail: String::new() })
    );
}

#[test]
fn clones_are_equal_to_what_they_were_made_from() {
    let failure = ScenarioError { kind: ErrorKind::UrlRead, detail: String::from("timeout") };
    assert_eq!(failure.clone(), failure);
    let commands = vec![
        navigate_to_wikipedia(),
        Command::FindElementById { id: String::from("searchInput") },
        Command::SendKeys { keys: String::from("cat") },
        Command::GetCurrentUrl,
        Command::CloseWindow,
        Command::Pause { seconds: 5 },
    ];
    for command in commands {
        assert_eq!(command.clone(), command);
    }
    let steps = vec![
        Step::Navigate,
        Step::Search { term: String::from("cat") },
        Step::ExpectUrl { url: String::from("https://en.wikipedia.org/wiki/Cat") },
    ];
    for step in steps {
        assert_eq!(step.clone(), step);
    }
}
