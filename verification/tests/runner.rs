use tauri::content::{BuildMode, Content, ContentError, Observation, PortPolicy, PortProbe};
use tauri::router::{Action, Source};
use tauri::run;
use tauri::runner::{build_webview, App, SizeHint, WindowConfig};
use tauri::script::{bootstrap, EventNames};

fn window(resizable: bool) -> WindowConfig {
    WindowConfig { title: "My App".to_string(), width: 800, height: 600, resizable }
}

fn application(mode: BuildMode, splashscreen_html: Option<&str>) -> App {
    App {
        mode,
        window: window(true),
        dist: "../dist".to_string(),
        events: EventNames::new("emit".to_string(), "queue".to_string(), "listeners".to_string()),
        plugin_init: "plugins()".to_string(),
        splashscreen_html: splashscreen_html.map(|markup| markup.to_string()),
        debug: true,
        updater: false,
    }
}

#[test]
fn webview_without_splashscreen_shows_the_main_content() {
    let mut plan = build_webview(
        &window(true),
        "../dist",
        false,
        "events()",
        "plugins()",
        Content::Url("http://localhost:3000".to_string()),
        None,
    );
    assert_eq!(plan.init, bootstrap("events()", "plugins()"));
    assert_eq!(plan.handler, "__TAURI_INVOKE_HANDLER__");
    assert!(plan.init.contains(&plan.handler));
    assert_eq!(plan.title, "My App");
    assert_eq!(plan.width, 800);
    assert_eq!(plan.height, 600);
    assert_eq!(plan.resize, SizeHint::Free);
    assert!(!plan.debug);
    assert_eq!(plan.url, "http://localhost:3000");
    assert_eq!(plan.entry_point_in, None);
    assert_eq!(
        plan.router.on_message("[{\"cmd\":\"__initialized\"}]"),
        Action::Setup { source: Source::Window, ready: true }
    );
}

#[test]
fn webview_with_splashscreen_shows_it_first() {
    let mut plan = build_webview(
        &window(false),
        "../dist",
        true,
        "",
        "",
        Content::Html("data:text/html,main".to_string()),
        Some(Content::Html("data:text/html,splash".to_string())),
    );
    assert_eq!(plan.resize, SizeHint::Fixed);
    assert!(plan.debug);
    assert_eq!(plan.url, "data:text/html,splash");
    assert_eq!(plan.entry_point_in, Some("../dist".to_string()));
    assert_eq!(
        plan.router.on_message("[{\"cmd\":\"__initialized\"}]"),
        Action::Setup { source: Source::Splashscreen, ready: false }
    );
    assert_eq!(
        plan.router.on_message("[{\"cmd\":\"closeSplashscreen\"}]"),
        Action::Eval("window.location.href = \"data:text/html,main\"".to_string())
    );
    assert_eq!(
        plan.router.on_message("[{\"cmd\":\"__initialized\"}]"),
        Action::Setup { source: Source::Window, ready: true }
    );
}

#[test]
fn a_splashscreen_given_as_address_does_not_replace_the_first_document() {
    let mut plan = build_webview(
        &window(true),
        "dist",
        false,
        "",
        "",
        Content::Url("http://localhost:1".to_string()),
        Some(Content::Url("http://localhost:2".to_string())),
    );
    assert_eq!(plan.url, "http://localhost:1");
    assert_eq!(plan.entry_point_in, Some("dist".to_string()));
    assert_eq!(
        plan.router.on_message("[{\"cmd\":\"__initialized\"}]"),
        Action::Setup { source: Source::Splashscreen, ready: false }
    );
}

#[test]
fn run_in_embedded_server_mode_plans_the_server() {
    let mode = BuildMode::EmbeddedServer { host: "localhost".to_string(), port: PortPolicy::Random };
    let launch = run(
        &application(mode, None),
        &Observation::Port(PortProbe::Ephemeral(Some(41000))),
    )
    .expect("a launch");
    assert_eq!(launch.server, Some("localhost:41000".to_string()));
    assert_eq!(launch.webview.url, "http://localhost:41000");
    assert!(!launch.updater);
    assert!(launch.webview.debug);
    assert!(launch.webview.init.contains("window['queue'] = [];"));
    assert!(launch.webview.init.contains("plugins()"));
}

#[test]
fn run_in_no_server_mode_plans_no_server() {
    let mode = BuildMode::NoServer { index: "<p>".to_string() };
    let mut launch = run(&application(mode, Some("<h1>wait</h1>")), &Observation::Nothing)
        .expect("a launch");
    assert_eq!(launch.server, None);
    assert_eq!(launch.webview.url, "<h1>wait</h1>");
    assert_eq!(launch.webview.entry_point_in, Some("../dist".to_string()));
    assert_eq!(
        launch.webview.router.on_message("[{\"cmd\":\"closeSplashscreen\"}]"),
        Action::Eval("window.location.href = \"data:text/html,%3Cp%3E\"".to_string())
    );
}

#[test]
fn run_without_events_leaves_the_event_script_out() {
    let mut app = application(BuildMode::Dev { dev_path: "http://localhost:8080".to_string() }, None);
    app.events = None;
    app.updater = true;
    let launch = run(&app, &Observation::Nothing).expect("a launch");
    assert_eq!(launch.webview.init, bootstrap("", "plugins()"));
    assert_eq!(launch.webview.url, "http://localhost:8080");
    assert_eq!(launch.server, None);
    assert!(launch.updater);
}

#[test]
fn run_fails_where_the_content_cannot_be_resolved() {
    let mode = BuildMode::EmbeddedServer { host: "localhost".to_string(), port: PortPolicy::Fixed(80) };
    let launch = run(&application(mode, None), &Observation::Port(PortProbe::Configured(false)));
    assert_eq!(launch.err(), Some(ContentError::InvalidPort));
    let mode = BuildMode::Dev { dev_path: "dist".to_string() };
    let launch = run(&application(mode, None), &Observation::IndexFile(None));
    assert_eq!(launch.err(), Some(ContentError::MissingIndex));
}
