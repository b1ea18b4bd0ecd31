use tauri::content::Content;
use tauri::router::{
    classify, endpoint_outcome, endpoints_replied, handler_outcome, handler_replied,
    unwrap_message, Action, CommandRouter, HandlerOutcome, Handshake, Message, Source, Step, Tier,
};

const UNKNOWN: &str = "unknown variant `frobnicate`, expected one of `readTextFile`, `open`";

fn main_content() -> Content<String> {
    Content::Url("http://localhost:3000".to_string())
}

fn ask(step: Step) -> tauri::router::Pending {
    match step {
        Step::Ask(pending) => pending,
        Step::Done(script) => panic!("the dispatch is over: {:?}", script),
    }
}

fn done(step: Step) -> Option<String> {
    match step {
        Step::Done(script) => script,
        Step::Ask(pending) => panic!("the dispatch goes on with {:?}", pending.tier()),
    }
}

#[test]
fn framing_is_taken_off() {
    assert_eq!(unwrap_message("[{\"cmd\":\"__initialized\"}]"), "{\"cmd\":\"__initialized\"}");
    assert_eq!(unwrap_message("[]"), "");
    assert_eq!(unwrap_message("[x]"), "x");
    assert_eq!(unwrap_message("[[1,2]]"), "[1,2]");
    assert_eq!(unwrap_message("[{\"cmd\":\"caf\u{e9}\"}]"), "{\"cmd\":\"caf\u{e9}\"}");
    assert_eq!(unwrap_message(""), "");
    assert_eq!(unwrap_message("["), "");
    assert_eq!(unwrap_message("abc"), "b");
}

#[test]
fn signals_are_told_from_commands() {
    assert_eq!(classify("{\"cmd\":\"__initialized\"}".to_string()), Message::Initialized);
    assert_eq!(classify("{\"cmd\":\"closeSplashscreen\"}".to_string()), Message::CloseSplashscreen);
    assert_eq!(
        classify("{\"cmd\": \"__initialized\"}".to_string()),
        Message::Command("{\"cmd\": \"__initialized\"}".to_string())
    );
    assert_eq!(
        classify("{\"cmd\":\"__initialized\",\"x\":1}".to_string()),
        Message::Command("{\"cmd\":\"__initialized\",\"x\":1}".to_string())
    );
    assert_eq!(classify(String::new()), Message::Command(String::new()));
}

#[test]
fn first_signal_with_splashscreen_comes_from_the_splashscreen() {
    let mut router = CommandRouter::new(true, main_content());
    assert_eq!(
        router.on_message("[{\"cmd\":\"__initialized\"}]"),
        Action::Setup { source: Source::Splashscreen, ready: false }
    );
    assert_eq!(
        router.on_message("[{\"cmd\":\"__initialized\"}]"),
        Action::Setup { source: Source::Window, ready: true }
    );
    assert_eq!(
        router.on_message("[{\"cmd\":\"__initialized\"}]"),
        Action::Setup { source: Source::Window, ready: true }
    );
}

#[test]
fn first_signal_without_splashscreen_comes_from_the_window() {
    let mut router = CommandRouter::new(false, main_content());
    assert_eq!(
        router.on_message("[{\"cmd\":\"__initialized\"}]"),
        Action::Setup { source: Source::Window, ready: true }
    );
    assert_eq!(
        router.on_message("[{\"cmd\":\"__initialized\"}]"),
        Action::Setup { source: Source::Window, ready: true }
    );
}

#[test]
fn sources_have_their_labels() {
    assert_eq!(Source::Splashscreen.label(), "splashscreen");
    assert_eq!(Source::Window.label(), "window-1");
}

#[test]
fn handshake_moves_once_per_signal() {
    let mut handshake = Handshake::begin(true);
    assert_eq!(handshake, Handshake::AwaitingSplashscreen);
    assert_eq!(handshake.initialized(), Source::Splashscreen);
    assert_eq!(handshake, Handshake::AwaitingWindow);
    assert_eq!(handshake.initialized(), Source::Window);
    assert_eq!(handshake, Handshake::Ready);
    assert_eq!(handshake.initialized(), Source::Window);
    assert_eq!(handshake, Handshake::Ready);
    assert_eq!(Handshake::begin(false), Handshake::AwaitingWindow);
}

#[test]
fn closing_the_splashscreen_navigates_to_the_main_content() {
    let mut router = CommandRouter::new(true, main_content());
    assert_eq!(
        router.on_message("[{\"cmd\":\"closeSplashscreen\"}]"),
        Action::Eval("window.location.href = \"http://localhost:3000\"".to_string())
    );
    let mut router = CommandRouter::new(true, Content::Html("data:text/html,%3Cp%3E".to_string()));
    assert_eq!(
        router.on_message("[{\"cmd\":\"closeSplashscreen\"}]"),
        Action::Eval("window.location.href = \"data:text/html,%3Cp%3E\"".to_string())
    );
    assert_eq!(
        router.on_message("[{\"cmd\":\"__initialized\"}]"),
        Action::Setup { source: Source::Splashscreen, ready: false }
    );
}

#[test]
fn other_messages_are_dispatched_as_they_are() {
    let mut router = CommandRouter::new(false, main_content());
    assert_eq!(
        router.on_message("[{\"cmd\":\"readTextFile\",\"path\":\"a.txt\"}]"),
        Action::Dispatch("{\"cmd\":\"readTextFile\",\"path\":\"a.txt\"}".to_string())
    );
    assert_eq!(router.on_message("[not json]"), Action::Dispatch("not json".to_string()));
    assert_eq!(router.on_message(""), Action::Dispatch(String::new()));
    assert_eq!(
        router.on_message("[{\"cmd\":\"__initialized\"}]"),
        Action::Setup { source: Source::Window, ready: true }
    );
}

#[test]
fn outcomes_go_by_the_marker() {
    assert_eq!(endpoint_outcome(Ok(())), HandlerOutcome::Handled);
    assert_eq!(
        endpoint_outcome(Err(UNKNOWN.to_string())),
        HandlerOutcome::NotMatched(Some(UNKNOWN.to_string()))
    );
    assert_eq!(
        endpoint_outcome(Err("permission denied".to_string())),
        HandlerOutcome::Failed("permission denied".to_string())
    );
    assert_eq!(endpoint_outcome(Err(String::new())), HandlerOutcome::Failed(String::new()));
    assert_eq!(handler_outcome(Ok(true)), HandlerOutcome::Handled);
    assert_eq!(handler_outcome(Ok(false)), HandlerOutcome::NotMatched(None));
    assert_eq!(
        handler_outcome(Err("unknown variant".to_string())),
        HandlerOutcome::NotMatched(Some("unknown variant".to_string()))
    );
    assert_eq!(
        handler_outcome(Err("Unknown Variant".to_string())),
        HandlerOutcome::Failed("Unknown Variant".to_string())
    );
}

#[test]
fn endpoints_that_take_the_command_end_the_dispatch() {
    assert_eq!(done(endpoints_replied("{\"cmd\":\"open\"}".to_string(), Ok(()))), None);
}

#[test]
fn an_endpoint_failure_is_reported_and_ends_the_dispatch() {
    let step = endpoints_replied("{\"cmd\":\"open\"}".to_string(), Err("no such file".to_string()));
    assert_eq!(
        done(step),
        Some("console.error('failed to match a command for {\"cmd\":\"open\"}, no such file')".to_string())
    );
}

#[test]
fn an_empty_error_text_is_not_reported() {
    assert_eq!(done(endpoints_replied("x".to_string(), Err(String::new()))), None);
    let pending = ask(endpoints_replied("x".to_string(), Err(UNKNOWN.to_string())));
    assert_eq!(done(handler_replied(pending, Err(String::new()))), None);
}

#[test]
fn a_command_falls_back_tier_by_tier() {
    let command = "{\"cmd\":\"frobnicate\"}";
    let first = ask(endpoints_replied(command.to_string(), Err(UNKNOWN.to_string())));
    assert_eq!(first.tier(), Tier::Application);
    assert_eq!(first.command(), command);
    let second = ask(handler_replied(first, Ok(false)));
    assert_eq!(second.tier(), Tier::Plugins);
    assert_eq!(second.command(), command);
    assert_eq!(done(handler_replied(second, Ok(true))), None);
}

#[test]
fn the_application_handler_can_take_the_command() {
    let first = ask(endpoints_replied("c".to_string(), Err(UNKNOWN.to_string())));
    assert_eq!(done(handler_replied(first, Ok(true))), None);
}

#[test]
fn the_application_handler_can_fail_the_command() {
    let first = ask(endpoints_replied("c".to_string(), Err(UNKNOWN.to_string())));
    assert_eq!(
        done(handler_replied(first, Err("it's broken".to_string()))),
        Some("console.error('failed to match a command for c, it\\'s broken')".to_string())
    );
}

#[test]
fn a_command_that_no_tier_knows_is_reported_once() {
    let command = "{\"cmd\":\"frobnicate\"}";
    let first = ask(endpoints_replied(command.to_string(), Err(UNKNOWN.to_string())));
    let second = ask(handler_replied(first, Ok(false)));
    let script = done(handler_replied(second, Ok(false))).expect("a report");
    assert!(script.contains(command));
    assert_eq!(
        script,
        format!("console.error('failed to match a command for {}, {}')", command, UNKNOWN)
    );
}

#[test]
fn the_last_text_that_says_unknown_is_the_one_reported() {
    let first = ask(endpoints_replied("c".to_string(), Err(UNKNOWN.to_string())));
    let second = ask(handler_replied(first, Err("app: unknown variant c".to_string())));
    assert_eq!(
        done(handler_replied(second, Ok(false))),
        Some("console.error('failed to match a command for c, app: unknown variant c')".to_string())
    );
    let first = ask(endpoints_replied("c".to_string(), Err(UNKNOWN.to_string())));
    let second = ask(handler_replied(first, Ok(false)));
    assert_eq!(
        done(handler_replied(second, Err("plugin: unknown variant c".to_string()))),
        Some(
            "console.error('failed to match a command for c, plugin: unknown variant c')"
                .to_string()
        )
    );
    let first = ask(endpoints_replied("c".to_string(), Err(UNKNOWN.to_string())));
    let second = ask(handler_replied(first, Ok(false)));
    assert_eq!(
        done(handler_replied(second, Err("plugin failed".to_string()))),
        Some("console.error('failed to match a command for c, plugin failed')".to_string())
    );
}

#[test]
fn quotes_are_escaped_in_the_report() {
    let command = "{\"cmd\":\"say\",\"text\":\"it's\"}";
    let first = ask(endpoints_replied(command.to_string(), Err("unknown variant 'say'".to_string())));
    let second = ask(handler_replied(first, Ok(false)));
    let script = done(handler_replied(second, Ok(false))).expect("a report");
    assert_eq!(
        script,
        "console.error('failed to match a command for {\"cmd\":\"say\",\"text\":\"it\\'s\"}, unknown variant \\'say\\'')"
    );
    assert!(script.contains(&command.replace("'", "\\'")));
}
