//! What starting the shell decides: the main content, the asset server's address, the
//! window and what it shows first, and the router that takes the window's messages.

use vstd::prelude::*;
use vstd::string::*;
use crate::content::{
    resolved, setup_content, BuildMode, BuildModeView, Content, ContentError, Observation,
};
use crate::router::{CommandRouter, Handshake, RouterView};
use crate::script::{
    bootstrap, bootstrap_script, event_init_of, init, lemma_bootstrap_names_handler, EventNames,
    INVOKE_HANDLER,
};
use crate::text::occurs_in;
use crate::server::{listen_address, server_address};

verus! {

/// The script that a splashscreen's window loads from the distribution directory, so that
/// the splashscreen can reach the native side.
pub const ENTRY_POINT_FILE: &'static str = "tauri.js";

/// Whether the user may resize the window.
#[derive(Clone, Copy, Debug, PartialEq, Eq)]
pub enum SizeHint {
    /// Width and height are a default; the window can be resized.
    Free,
    /// Width and height are fixed.
    Fixed,
}

/// The window as the configuration describes it.
#[derive(Clone, Debug, PartialEq, Eq)]
pub struct WindowConfig {
    pub title: String,
    pub width: usize,
    pub height: usize,
    pub resizable: bool,
}

/// The webview to build: what the window is made with, what it shows first, and the router
/// for its messages.
pub struct WebviewPlan {
    /// The script that runs before any script of a document.
    pub init: String,
    /// The name under which the router is bound to the window, for its scripts to call.
    pub handler: String,
    pub title: String,
    pub width: usize,
    pub height: usize,
    pub resize: SizeHint,
    pub debug: bool,
    /// What the window shows first.
    pub url: String,
    /// The directory whose entry-point script is evaluated once the window is built, where
    /// there is a splashscreen.
    pub entry_point_in: Option<String>,
    /// Takes every message that the window's scripts send.
    pub router: CommandRouter,
}

/// An optional content as text.
pub open spec fn optional_content_view(content: Option<Content<String>>) -> Option<
    Content<Seq<char>>,
> {
    match content {
        Some(content) => Some(content@),
        None => None,
    }
}

/// An optional text as a sequence of characters.
pub open spec fn optional_text_view(text: Option<String>) -> Option<Seq<char>> {
    match text {
        Some(text) => Some(text@),
        None => None,
    }
}

/// What the window shows first: the splashscreen's markup where there is one, else the
/// main content, markup or address alike.
pub open spec fn first_document(
    content: Content<Seq<char>>,
    splashscreen: Option<Content<Seq<char>>>,
) -> Seq<char> {
    match splashscreen {
        Some(Content::Html(markup)) => markup,
        _ => content.value(),
    }
}

/// The size hint of a window.
pub open spec fn size_hint(resizable: bool) -> SizeHint {
    if resizable {
        SizeHint::Free
    } else {
        SizeHint::Fixed
    }
}

/// `plan` is the webview for this window, these scripts and these contents.
pub open spec fn is_plan_for(
    plan: WebviewPlan,
    window: WindowConfig,
    dist: Seq<char>,
    debug: bool,
    event_init: Seq<char>,
    plugin_init: Seq<char>,
    content: Content<Seq<char>>,
    splashscreen: Option<Content<Seq<char>>>,
) -> bool {
    &&& plan.init@ == bootstrap_script(event_init, plugin_init)
    &&& plan.handler@ == INVOKE_HANDLER@
    &&& plan.title@ == window.title@
    &&& plan.width == window.width
    &&& plan.height == window.height
    &&& plan.resize == size_hint(window.resizable)
    &&& plan.debug == debug
    &&& plan.url@ == first_document(content, splashscreen)
    &&& optional_text_view(plan.entry_point_in) == if splashscreen is Some {
        Some(dist)
    } else {
        None
    }
    &&& plan.router@ == (RouterView {
        handshake: Handshake::start(splashscreen is Some),
        content,
    })
}

/// Plans the webview: the bootstrap script around the two scripts given, the window as
/// configured, the first document, and a router at the start of the handshake.
pub fn build_webview(
    window: &WindowConfig,
    dist: &str,
    debug: bool,
    event_init: &str,
    plugin_init: &str,
    content: Content<String>,
    splashscreen_content: Option<Content<String>>,
) -> (plan: WebviewPlan)
    ensures
        is_plan_for(
            plan,
            *window,
            dist@,
            debug,
            event_init@,
            plugin_init@,
            content@,
            optional_content_view(splashscreen_content),
        ),
        occurs_in(plan.init@, plan.handler@),
{
    proof {
        lemma_bootstrap_names_handler(event_init@, plugin_init@);
    }
    let resize = if window.resizable {
        SizeHint::Free
    } else {
        SizeHint::Fixed
    };
    let has_splashscreen = splashscreen_content.is_some();
    let url = match splashscreen_content {
        Some(Content::Html(markup)) => markup,
        _ => content.get().clone(),
    };
    let entry_point_in = if has_splashscreen {
        Some(String::from_str(dist))
    } else {
        None
    };
    WebviewPlan {
        init: bootstrap(event_init, plugin_init),
        handler: String::from_str(INVOKE_HANDLER),
        title: window.title.clone(),
        width: window.width,
        height: window.height,
        resize,
        debug,
        url,
        entry_point_in,
        router: CommandRouter::new(has_splashscreen, content),
    }
}

/// What the application hands to `run`.
pub struct App {
    /// How the main document is sourced.
    pub mode: BuildMode,
    pub window: WindowConfig,
    /// The distribution directory of the front end.
    pub dist: String,
    /// The names for the event script; `None` where the application uses no events.
    pub events: Option<EventNames>,
    /// The script that the plugins want evaluated before the document's own.
    pub plugin_init: String,
    /// The markup of the splashscreen, where there is one.
    pub splashscreen_html: Option<String>,
    /// Whether the webview is built with its developer tools.
    pub debug: bool,
    /// Whether the updater is started beside the window.
    pub updater: bool,
}

/// What `run` decided, in the order in which the host carries it out: the asset server,
/// the webview, the updater.
pub struct Launch {
    /// The address on which the asset server listens before the window is shown; `None`
    /// outside embedded-server mode.
    pub server: Option<String>,
    pub webview: WebviewPlan,
    /// Whether the updater is started once the window is built.
    pub updater: bool,
}

/// The splashscreen's content: its markup, where there is any.
pub open spec fn splashscreen_of(markup: Option<String>) -> Option<Content<Seq<char>>> {
    match markup {
        Some(markup) => Some(Content::Html(markup@)),
        None => None,
    }
}

/// The address on which the asset server listens: that of the main content in
/// embedded-server mode, where the content is an address; none in the other modes.
pub open spec fn server_of(mode: BuildModeView, content: Content<Seq<char>>) -> Option<
    Seq<char>,
> {
    match mode {
        BuildModeView::EmbeddedServer { host, port } => match content {
            Content::Url(url) => Some(listen_address(url)),
            Content::Html(_) => Some(listen_address(Seq::empty())),
        },
        _ => None,
    }
}

/// Resolves the main content and plans the start of the shell around it. Fails exactly
/// where the content cannot be resolved, with that error.
pub fn run(application: &App, seen: &Observation) -> (launch: Result<Launch, ContentError>)
    ensures
        match launch {
            Ok(launch) => {
                &&& resolved(application.mode@, seen@) matches Ok(content)
                &&& optional_text_view(launch.server) == server_of(application.mode@, content)
                &&& launch.updater == application.updater
                &&& is_plan_for(
                    launch.webview,
                    application.window,
                    application.dist@,
                    application.debug,
                    event_init_of(application.events),
                    application.plugin_init@,
                    content,
                    splashscreen_of(application.splashscreen_html),
                )
            },
            Err(error) => resolved(application.mode@, seen@) == Err::<Content<Seq<char>>, _>(error),
        },
{
    let main_content = match setup_content(&application.mode, seen) {
        Ok(content) => content,
        Err(error) => {
            return Err(error);
        },
    };
    let server = match &application.mode {
        BuildMode::EmbeddedServer { host, port } => {
            proof {
                reveal_strlit("");
            }
            assert(""@ =~= Seq::<char>::empty());
            match &main_content {
                Content::Url(url) => Some(server_address(url.as_str())),
                Content::Html(_) => Some(server_address("")),
            }
        },
        _ => None,
    };
    let splashscreen_content = match &application.splashscreen_html {
        Some(markup) => Some(Content::Html(markup.clone())),
        None => None,
    };
    let event_init = init(&application.events);
    let webview = build_webview(
        &application.window,
        application.dist.as_str(),
        application.debug,
        event_init.as_str(),
        application.plugin_init.as_str(),
        main_content,
        splashscreen_content,
    );
    Ok(Launch { server, webview, updater: application.updater })
}

} // verus!
