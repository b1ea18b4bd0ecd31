//! Where the main document comes from: a development server or directory, the embedded
//! asset server, or a document carried inline.

use vstd::prelude::*;
use vstd::string::*;
use crate::percent::{data_uri, data_uri_of};
use crate::text::{
    begins_with, contains, decimal, decimal_digits, is_decimal_digit, lemma_decimal_digits,
    lemma_middle_occurs, occurs_in, starts_with,
};

verus! {

/// The document that a window shows: markup handed over inline, or an address to load.
#[derive(Clone, Debug, PartialEq, Eq)]
pub enum Content<T> {
    Html(T),
    Url(T),
}

impl<T: View> View for Content<T> {
    type V = Content<T::V>;

    open spec fn view(&self) -> Content<T::V> {
        match *self {
            Content::Html(html) => Content::Html(html@),
            Content::Url(url) => Content::Url(url@),
        }
    }
}

impl<T> Content<T> {
    /// What the content holds, markup or address alike.
    pub open spec fn value(self) -> T {
        match self {
            Content::Html(html) => html,
            Content::Url(url) => url,
        }
    }

    /// What the content holds, markup or address alike.
    pub fn get(&self) -> (value: &T)
        ensures
            *value == self.value(),
    {
        match self {
            Content::Html(html) => html,
            Content::Url(url) => url,
        }
    }

    /// Gives up the content for what it holds.
    pub fn into_value(self) -> (value: T)
        ensures
            value == self.value(),
    {
        match self {
            Content::Html(html) => html,
            Content::Url(url) => url,
        }
    }
}

/// How the embedded asset server gets its port.
#[derive(Clone, Copy, Debug, PartialEq, Eq)]
pub enum PortPolicy {
    /// Any port that the operating system reports free.
    Random,
    /// This port, provided it is free.
    Fixed(u16),
}

/// What asking the operating system about ports brought.
#[derive(Clone, Copy, Debug, PartialEq, Eq)]
pub enum PortProbe {
    /// A free port was asked for: the one found, if any.
    Ephemeral(Option<u16>),
    /// The configured port was checked: whether it is free.
    Configured(bool),
}

/// The three ways the front end's first document is sourced.
#[derive(Clone, Debug, PartialEq, Eq)]
pub enum BuildMode {
    /// Development: `dev_path` is the address of a development server or a local directory.
    Dev { dev_path: String },
    /// The bundled assets are served over the loopback network.
    EmbeddedServer { host: String, port: PortPolicy },
    /// The entry document is carried inline.
    NoServer { index: String },
}

/// A build mode as text.
pub enum BuildModeView {
    Dev { dev_path: Seq<char> },
    EmbeddedServer { host: Seq<char>, port: PortPolicy },
    NoServer { index: Seq<char> },
}

impl View for BuildMode {
    type V = BuildModeView;

    open spec fn view(&self) -> BuildModeView {
        match *self {
            BuildMode::Dev { dev_path } => BuildModeView::Dev { dev_path: dev_path@ },
            BuildMode::EmbeddedServer { host, port } => BuildModeView::EmbeddedServer {
                host: host@,
                port,
            },
            BuildMode::NoServer { index } => BuildModeView::NoServer { index: index@ },
        }
    }
}

/// What a build mode must learn from outside before its content can be resolved.
#[derive(Clone, Debug, PartialEq, Eq)]
pub enum Need {
    /// Nothing.
    Nothing,
    /// The webview must be allowed to reach the loopback network, where the platform
    /// isolates it.
    Loopback,
    /// The contents of the file `file` inside `directory`.
    IndexFile { directory: String, file: String },
    /// A probe of the ports, as the policy asks.
    Port(PortPolicy),
}

/// A need as text.
pub enum NeedView {
    Nothing,
    Loopback,
    IndexFile { directory: Seq<char>, file: Seq<char> },
    Port(PortPolicy),
}

impl View for Need {
    type V = NeedView;

    open spec fn view(&self) -> NeedView {
        match *self {
            Need::Nothing => NeedView::Nothing,
            Need::Loopback => NeedView::Loopback,
            Need::IndexFile { directory, file } => NeedView::IndexFile {
                directory: directory@,
                file: file@,
            },
            Need::Port(policy) => NeedView::Port(policy),
        }
    }
}

/// What was learned from outside for a build mode.
#[derive(Clone, Debug, PartialEq, Eq)]
pub enum Observation {
    /// Nothing was looked up.
    Nothing,
    /// The contents of the development index file, or `None` where there is no such file.
    IndexFile(Option<String>),
    /// What the port probe brought.
    Port(PortProbe),
}

/// An observation as text.
pub enum ObservationView {
    Nothing,
    IndexFile(Option<Seq<char>>),
    Port(PortProbe),
}

impl View for Observation {
    type V = ObservationView;

    open spec fn view(&self) -> ObservationView {
        match *self {
            Observation::Nothing => ObservationView::Nothing,
            Observation::IndexFile(Some(document)) => ObservationView::IndexFile(Some(document@)),
            Observation::IndexFile(None) => ObservationView::IndexFile(None),
            Observation::Port(probe) => ObservationView::Port(probe),
        }
    }
}

/// Why no content could be resolved. Either is fatal at startup.
#[derive(Clone, Copy, Debug, PartialEq, Eq)]
pub enum ContentError {
    /// The development directory holds no index file.
    MissingIndex,
    /// No port could be had for the embedded server.
    InvalidPort,
}

/// The view of a resolution: the content as text, or the error.
pub open spec fn resolution_view(resolution: Result<Content<String>, ContentError>) -> Result<
    Content<Seq<char>>,
    ContentError,
> {
    match resolution {
        Ok(content) => Ok(content@),
        Err(error) => Err(error),
    }
}

/// The name of the entry document that a development directory must hold.
pub const INDEX_FILE: &'static str = "index.tauri.html";

/// The path under which the asset server answers with the entry document.
pub const INDEX_FILE_PATH: &'static str = "/index.tauri.html";

/// The scheme of the web, as it opens an address. It is the one put before a server
/// address that has no scheme.
pub const HTTP_SCHEME: &'static str = "http://";

/// The secure scheme of the web, as it opens an address.
pub const HTTPS_SCHEME: &'static str = "https://";

/// Opens the message for a development directory without index file, up to the directory.
pub const MISSING_INDEX_OPEN: &'static str = "Couldn't find 'index.tauri.html' inside ";

/// Closes the message for a development directory without index file.
pub const MISSING_INDEX_CLOSE: &'static str = "; did you forget to run 'tauri dev'?";

/// The message for an embedded server without a usable port.
pub const INVALID_PORT: &'static str = "Unable to setup URL: invalid port";

/// Between host and port.
pub const PORT_SEPARATOR: &'static str = ":";

/// What the listing of loopback exemptions holds, in lower case, where the webview host is
/// exempt.
pub const LOOPBACK_EXEMPTION: &'static str = "win32webviewhost_cw5n1h2txyewy";

/// Whether a text opens with one of the two schemes of the web.
pub open spec fn has_scheme(text: Seq<char>) -> bool {
    begins_with(text, HTTP_SCHEME@) || begins_with(text, HTTPS_SCHEME@)
}

/// Whether a development path is an address rather than a directory.
pub open spec fn is_address(dev_path: Seq<char>) -> bool {
    has_scheme(dev_path)
}

/// The port as text and whether it may be used: a free port that was found, under the
/// random policy; the configured port, usable if the check found it free. A probe of the
/// other kind confirms nothing.
pub open spec fn chosen_port(policy: PortPolicy, probe: PortProbe) -> (Seq<char>, bool) {
    match policy {
        PortPolicy::Random => match probe {
            PortProbe::Ephemeral(Some(port)) => (decimal_digits(port as nat), true),
            _ => (seq!['0'], false),
        },
        PortPolicy::Fixed(port) => (
            decimal_digits(port as nat),
            probe == PortProbe::Configured(true),
        ),
    }
}

/// The address of the embedded server: host, colon, port, with `http://` in front where
/// that opens with neither scheme.
pub open spec fn server_url(host: Seq<char>, port: Seq<char>) -> Seq<char> {
    let base = host + PORT_SEPARATOR@ + port;
    if has_scheme(base) {
        base
    } else {
        HTTP_SCHEME@ + base
    }
}

/// The directory that a build mode develops from: the development path, and nothing in
/// the other modes.
pub open spec fn dev_path_of(mode: BuildModeView) -> Seq<char> {
    match mode {
        BuildModeView::Dev { dev_path } => dev_path,
        _ => Seq::empty(),
    }
}

/// The message with which startup is given up on an error: for a missing index file it
/// names the file, the development directory and the step that writes the file.
pub open spec fn abort_message(error: ContentError, mode: BuildModeView) -> Seq<char> {
    match error {
        ContentError::MissingIndex => MISSING_INDEX_OPEN@ + dev_path_of(mode)
            + MISSING_INDEX_CLOSE@,
        ContentError::InvalidPort => INVALID_PORT@,
    }
}

/// What a build mode needs from outside.
pub open spec fn need_of(mode: BuildModeView) -> NeedView {
    match mode {
        BuildModeView::Dev { dev_path } => if is_address(dev_path) {
            NeedView::Loopback
        } else {
            NeedView::IndexFile { directory: dev_path, file: INDEX_FILE@ }
        },
        BuildModeView::EmbeddedServer { host, port } => NeedView::Port(port),
        BuildModeView::NoServer { index } => NeedView::Nothing,
    }
}

/// The main content of a build mode, given what was observed for it.
///
/// - Development, with an address: that address.
/// - Development, with a directory: the index file's contents as an inline address; an
///   error where no contents were observed.
/// - Embedded server: the server's address on the chosen port; an error where no usable
///   port was observed.
/// - No server: the inline index as an inline address.
pub open spec fn resolved(mode: BuildModeView, seen: ObservationView) -> Result<
    Content<Seq<char>>,
    ContentError,
> {
    match mode {
        BuildModeView::Dev { dev_path } => if is_address(dev_path) {
            Ok(Content::Url(dev_path))
        } else {
            match seen {
                ObservationView::IndexFile(Some(document)) => Ok(
                    Content::Html(data_uri_of(document)),
                ),
                _ => Err(ContentError::MissingIndex),
            }
        },
        BuildModeView::EmbeddedServer { host, port } => match seen {
            ObservationView::Port(probe) => if chosen_port(port, probe).1 {
                Ok(Content::Url(server_url(host, chosen_port(port, probe).0)))
            } else {
                Err(ContentError::InvalidPort)
            },
            _ => Err(ContentError::InvalidPort),
        },
        BuildModeView::NoServer { index } => Ok(Content::Html(data_uri_of(index))),
    }
}

/// `text` in lower case, as `str::to_lowercase` writes it.
pub uninterp spec fn lowercased(text: Seq<char>) -> Seq<char>;

/// `str::to_lowercase`: the text in lower case, a function of the text alone.
#[verifier::external_body]
fn lowercase(text: &str) -> (out: String)
    ensures
        out@ == lowercased(text@),
{
    text.to_lowercase()
}

/// Whether a listing of loopback exemptions, in lower case, names the webview host.
pub fn loopback_exempt(listing: &str) -> (exempt: bool)
    ensures
        exempt == occurs_in(listing@, LOOPBACK_EXEMPTION@),
{
    contains(listing, LOOPBACK_EXEMPTION)
}

/// Whether the exemption has yet to be granted, going by what the isolation check printed.
pub fn needs_loopback_exemption(output: &str) -> (needed: bool)
    ensures
        needed == !occurs_in(lowercased(output@), LOOPBACK_EXEMPTION@),
{
    let listing = lowercase(output);
    !loopback_exempt(listing.as_str())
}

/// The port for the embedded server, as text, and whether it may be used.
pub fn setup_port(policy: &PortPolicy, probe: &PortProbe) -> (chosen: (String, bool))
    ensures
        chosen.0@ == chosen_port(*policy, *probe).0,
        chosen.1 == chosen_port(*policy, *probe).1,
{
    match policy {
        PortPolicy::Random => match probe {
            PortProbe::Ephemeral(Some(port)) => (decimal(*port as u64), true),
            _ => {
                proof {
                    reveal_strlit("0");
                }
                assert("0"@ =~= seq!['0']);
                (String::from_str("0"), false)
            },
        },
        PortPolicy::Fixed(port) => {
            let free = match probe {
                PortProbe::Configured(free) => *free,
                _ => false,
            };
            (decimal(*port as u64), free)
        },
    }
}

/// Whether `text` opens with one of the two schemes of the web.
pub fn with_scheme(text: &str) -> (found: bool)
    ensures
        found == has_scheme(text@),
{
    starts_with(text, HTTP_SCHEME) || starts_with(text, HTTPS_SCHEME)
}

/// The address of the embedded server on `host` and `port`.
pub fn setup_server_url(port: &str, host: &str) -> (url: String)
    ensures
        url@ == server_url(host@, port@),
        occurs_in(url@, port@),
{
    proof {
        lemma_server_url_holds_port(host@, port@);
    }
    let mut base = String::from_str(host);
    base.append(PORT_SEPARATOR);
    base.append(port);
    if with_scheme(base.as_str()) {
        base
    } else {
        let mut url = String::from_str(HTTP_SCHEME);
        url.append(base.as_str());
        url
    }
}

/// What `mode` needs from outside before `setup_content` can resolve it.
pub fn content_need(mode: &BuildMode) -> (need: Need)
    ensures
        need@ == need_of(mode@),
{
    match mode {
        BuildMode::Dev { dev_path } => {
            if with_scheme(dev_path.as_str()) {
                Need::Loopback
            } else {
                Need::IndexFile {
                    directory: dev_path.clone(),
                    file: String::from_str(INDEX_FILE),
                }
            }
        },
        BuildMode::EmbeddedServer { host, port } => Need::Port(*port),
        BuildMode::NoServer { index } => Need::Nothing,
    }
}

/// Resolves the main content of `mode` from what was observed for it.
pub fn setup_content(mode: &BuildMode, seen: &Observation) -> (resolution: Result<
    Content<String>,
    ContentError,
>)
    ensures
        resolution_view(resolution) == resolved(mode@, seen@),
{
    match mode {
        BuildMode::Dev { dev_path } => {
            if with_scheme(dev_path.as_str()) {
                Ok(Content::Url(dev_path.clone()))
            } else {
                match seen {
                    Observation::IndexFile(Some(document)) => Ok(
                        Content::Html(data_uri(document.as_str())),
                    ),
                    _ => Err(ContentError::MissingIndex),
                }
            }
        },
        BuildMode::EmbeddedServer { host, port } => {
            match seen {
                Observation::Port(probe) => {
                    let (text, valid) = setup_port(port, probe);
                    if valid {
                        Ok(Content::Url(setup_server_url(text.as_str(), host.as_str())))
                    } else {
                        Err(ContentError::InvalidPort)
                    }
                },
                _ => Err(ContentError::InvalidPort),
            }
        },
        BuildMode::NoServer { index } => Ok(Content::Html(data_uri(index.as_str()))),
    }
}

/// The message with which the host gives up startup on `error`. Neither error is one to
/// try again on: the operator has to mend the configuration first.
pub fn startup_message(error: ContentError, mode: &BuildMode) -> (message: String)
    ensures
        message@ == abort_message(error, mode@),
{
    match error {
        ContentError::MissingIndex => {
            let mut message = String::from_str(MISSING_INDEX_OPEN);
            match mode {
                BuildMode::Dev { dev_path } => {
                    message.append(dev_path.as_str());
                },
                _ => {
                    assert(message@ + Seq::<char>::empty() =~= message@);
                },
            }
            message.append(MISSING_INDEX_CLOSE);
            message
        },
        ContentError::InvalidPort => String::from_str(INVALID_PORT),
    }
}

/// The server's address holds the port, whatever text is handed in as the port.
pub proof fn lemma_server_url_holds_port(host: Seq<char>, port: Seq<char>)
    ensures
        occurs_in(server_url(host, port), port),
{
    let base = host + PORT_SEPARATOR@ + port;
    let none = Seq::<char>::empty();
    if has_scheme(base) {
        lemma_middle_occurs(host + PORT_SEPARATOR@, port, none);
        assert(host + PORT_SEPARATOR@ + port + none =~= base);
    } else {
        lemma_middle_occurs(HTTP_SCHEME@ + host + PORT_SEPARATOR@, port, none);
        assert(HTTP_SCHEME@ + host + PORT_SEPARATOR@ + port + none =~= HTTP_SCHEME@ + base);
    }
}

/// No text opens with both schemes.
pub proof fn lemma_schemes_differ(text: Seq<char>)
    ensures
        !(begins_with(text, HTTP_SCHEME@) && begins_with(text, HTTPS_SCHEME@)),
{
    reveal_strlit("http://");
    reveal_strlit("https://");
    if begins_with(text, HTTP_SCHEME@) && begins_with(text, HTTPS_SCHEME@) {
        assert(text.subrange(0, 7)[4] == text[4]);
        assert(text.subrange(0, 8)[4] == text[4]);
        assert(false);
    }
}

/// The server's address opens with `http://` exactly where host, colon and port do not
/// open with `https://`, whatever text is handed in as the port.
pub proof fn lemma_server_url_scheme(host: Seq<char>, port: Seq<char>)
    ensures
        begins_with(server_url(host, port), HTTP_SCHEME@) <==> !begins_with(
            host + PORT_SEPARATOR@ + port,
            HTTPS_SCHEME@,
        ),
{
    let base = host + PORT_SEPARATOR@ + port;
    lemma_schemes_differ(base);
    if !has_scheme(base) {
        assert((HTTP_SCHEME@ + base).subrange(0, HTTP_SCHEME@.len() as int) =~= HTTP_SCHEME@);
    }
}

/// Before a port in base ten, host and colon open with `https://` only where the host
/// does.
pub proof fn lemma_secure_host(host: Seq<char>, port: nat)
    ensures
        begins_with(host + PORT_SEPARATOR@ + decimal_digits(port), HTTPS_SCHEME@) <==> begins_with(
            host,
            HTTPS_SCHEME@,
        ),
{
    reveal_strlit("https://");
    reveal_strlit(":");
    let text = decimal_digits(port);
    let base = host + PORT_SEPARATOR@ + text;
    lemma_decimal_digits(port);
    if host.len() >= 8 {
        assert(base.subrange(0, 8) =~= host.subrange(0, 8));
    } else if begins_with(base, HTTPS_SCHEME@) {
        let head = base.subrange(0, 8);
        assert(head[host.len() as int] == base[host.len() as int]);
        assert(base[host.len() as int] == ':');
        assert(host.len() == 5);
        assert(head[6] == base[6]);
        assert(base[6] == text[0]);
        assert(is_decimal_digit(text[0]));
        assert(false);
    }
}

/// In embedded-server mode there is content exactly where the probe that the policy asks
/// for found a usable port, and the only error is the invalid port. The content is the
/// server's address, and it opens with `http://` exactly where the host does not open with
/// `https://`.
pub proof fn lemma_embedded_server_content(
    host: Seq<char>,
    port: PortPolicy,
    seen: ObservationView,
)
    ensures
        match resolved(BuildModeView::EmbeddedServer { host, port }, seen) {
            Ok(content) => {
                &&& seen matches ObservationView::Port(probe)
                &&& chosen_port(port, probe).1
                &&& content == Content::Url(server_url(host, chosen_port(port, probe).0))
                &&& begins_with(content.value(), HTTP_SCHEME@) <==> !begins_with(
                    host,
                    HTTPS_SCHEME@,
                )
            },
            Err(error) => {
                &&& error == ContentError::InvalidPort
                &&& seen matches ObservationView::Port(probe) ==> !chosen_port(port, probe).1
            },
        },
{
    if let ObservationView::Port(probe) = seen {
        let (text, valid) = chosen_port(port, probe);
        if valid {
            let number: nat = match port {
                PortPolicy::Random => probe->Ephemeral_0->0 as nat,
                PortPolicy::Fixed(fixed) => fixed as nat,
            };
            assert(text == decimal_digits(number));
            lemma_secure_host(host, number);
            lemma_server_url_scheme(host, text);
        }
    }
}

/// In development mode a path that opens with a scheme is an address and is the content,
/// whatever was observed. Any other path is a directory: its content is the index file
/// inlined, and it fails, with the missing index, exactly where no contents of that file
/// were observed.
pub proof fn lemma_dev_content(dev_path: Seq<char>, seen: ObservationView)
    ensures
        resolved(BuildModeView::Dev { dev_path }, seen) == if has_scheme(dev_path) {
            Ok::<Content<Seq<char>>, ContentError>(Content::Url(dev_path))
        } else {
            match seen {
                ObservationView::IndexFile(Some(document)) => Ok(
                    Content::Html(data_uri_of(document)),
                ),
                _ => Err(ContentError::MissingIndex),
            }
        },
{
}

/// Content is a function of the configuration and of what was observed: the same texts
/// resolve to the same content, character for character.
pub proof fn lemma_resolution_repeats(
    first: BuildMode,
    again: BuildMode,
    seen_first: Observation,
    seen_again: Observation,
)
    requires
        first@ == again@,
        seen_first@ == seen_again@,
    ensures
        resolved(first@, seen_first@) == resolved(again@, seen_again@),
{
}

} // verus!
