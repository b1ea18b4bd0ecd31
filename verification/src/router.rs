//! Routing of the messages that the script context sends to the native side: the
//! initialization handshake, the closing of the splashscreen, and the dispatch of commands
//! through the handler tiers.

use vstd::prelude::*;
use vstd::string::*;
use crate::content::Content;
use crate::script::{
    error_report, escape, escaped, get_api_error_message, lemma_error_report_holds,
    lemma_escaped_is_empty, lemma_escaped_without_quote, navigation, navigation_script, QUOTE,
};
use crate::text::{contains, occurs_at, occurs_in, same_text};

verus! {

/// The payload of the signal that a document sends once its bootstrap script has run.
pub const INITIALIZED: &'static str = "{\"cmd\":\"__initialized\"}";

/// The payload of the signal that asks to leave the splashscreen for the main content.
pub const CLOSE_SPLASHSCREEN: &'static str = "{\"cmd\":\"closeSplashscreen\"}";

/// What a handler's error text holds where the handler did not know the command.
pub const UNKNOWN_COMMAND: &'static str = "unknown variant";

/// The label of the splashscreen as the source of a signal.
pub const SPLASHSCREEN_LABEL: &'static str = "splashscreen";

/// The label of the main window as the source of a signal.
pub const WINDOW_LABEL: &'static str = "window-1";

/// The window that an initialized signal is attributed to.
#[derive(Clone, Copy, Debug, PartialEq, Eq)]
pub enum Source {
    Splashscreen,
    Window,
}

impl Source {
    /// The label under which the application's setup hears of the source.
    pub open spec fn label_text(self) -> Seq<char> {
        match self {
            Source::Splashscreen => SPLASHSCREEN_LABEL@,
            Source::Window => WINDOW_LABEL@,
        }
    }

    /// The label under which the application's setup hears of the source.
    pub fn label(&self) -> (label: &'static str)
        ensures
            label@ == self.label_text(),
    {
        match self {
            Source::Splashscreen => SPLASHSCREEN_LABEL,
            Source::Window => WINDOW_LABEL,
        }
    }
}

/// How far the initialization handshake has come.
#[derive(Clone, Copy, Debug, PartialEq, Eq)]
pub enum Handshake {
    /// A splashscreen is shown and has not signalled yet.
    AwaitingSplashscreen,
    /// The main window has not signalled yet.
    AwaitingWindow,
    /// The main window has signalled.
    Ready,
}

impl Handshake {
    /// Where the handshake begins.
    pub open spec fn start(has_splashscreen: bool) -> Handshake {
        if has_splashscreen {
            Handshake::AwaitingSplashscreen
        } else {
            Handshake::AwaitingWindow
        }
    }

    /// The window that the next initialized signal is attributed to.
    pub open spec fn source(self) -> Source {
        match self {
            Handshake::AwaitingSplashscreen => Source::Splashscreen,
            _ => Source::Window,
        }
    }

    /// The handshake after one more initialized signal.
    pub open spec fn next(self) -> Handshake {
        match self {
            Handshake::AwaitingSplashscreen => Handshake::AwaitingWindow,
            _ => Handshake::Ready,
        }
    }

    /// The handshake after `count` more initialized signals.
    pub open spec fn after(self, count: nat) -> Handshake
        decreases count,
    {
        if count == 0 {
            self
        } else {
            self.next().after((count - 1) as nat)
        }
    }

    /// Where the handshake begins.
    pub fn begin(has_splashscreen: bool) -> (handshake: Handshake)
        ensures
            handshake == Handshake::start(has_splashscreen),
    {
        if has_splashscreen {
            Handshake::AwaitingSplashscreen
        } else {
            Handshake::AwaitingWindow
        }
    }

    /// Takes one initialized signal and says which window it came from.
    pub fn initialized(&mut self) -> (source: Source)
        ensures
            source == old(self).source(),
            *final(self) == old(self).next(),
    {
        match *self {
            Handshake::AwaitingSplashscreen => {
                *self = Handshake::AwaitingWindow;
                Source::Splashscreen
            },
            _ => {
                *self = Handshake::Ready;
                Source::Window
            },
        }
    }
}

/// With a splashscreen the first initialized signal comes from the splashscreen, without
/// one from the main window; every later signal comes from the main window.
pub proof fn lemma_handshake_sources(has_splashscreen: bool, earlier: nat)
    ensures
        Handshake::start(has_splashscreen).source() == if has_splashscreen {
            Source::Splashscreen
        } else {
            Source::Window
        },
        Handshake::start(has_splashscreen).after(earlier + 1).source() == Source::Window,
{
    lemma_after_one_signal(Handshake::start(has_splashscreen), earlier);
}

/// Once a handshake has taken a signal, it never waits for the splashscreen again.
pub proof fn lemma_after_one_signal(handshake: Handshake, earlier: nat)
    ensures
        handshake.after(earlier + 1) != Handshake::AwaitingSplashscreen,
        handshake.after(earlier + 1).source() == Source::Window,
    decreases earlier,
{
    if earlier > 0 {
        lemma_after_one_signal(handshake.next(), (earlier - 1) as nat);
    } else {
        assert(handshake.next().after(0) == handshake.next());
    }
}

/// The payload inside the one-element array that frames a message: the message without
/// its first and its last character.
pub open spec fn payload_of(raw: Seq<char>) -> Seq<char> {
    if raw.len() < 2 {
        Seq::empty()
    } else {
        raw.subrange(1, raw.len() - 1)
    }
}

/// Takes the framing off a message.
pub fn unwrap_message(raw: &str) -> (payload: String)
    ensures
        payload@ == payload_of(raw@),
{
    let length = raw.unicode_len();
    if length < 2 {
        String::new()
    } else {
        String::from_str(raw.substring_char(1, length - 1))
    }
}

/// A payload as the script context sends it: the one element of an array.
pub open spec fn framed(payload: Seq<char>) -> Seq<char> {
    seq!['['] + payload + seq![']']
}

/// A framed payload is unwrapped to itself.
pub proof fn lemma_unwraps_frame(payload: Seq<char>)
    ensures
        payload_of(framed(payload)) == payload,
{
    let raw = framed(payload);
    assert(raw.subrange(1, raw.len() - 1) =~= payload);
}

/// What a message asks for.
#[derive(Clone, Debug, PartialEq, Eq)]
pub enum Message {
    /// A document has run its bootstrap script.
    Initialized,
    /// The splashscreen is to give way to the main content.
    CloseSplashscreen,
    /// A command for the handlers, as it was sent.
    Command(String),
}

/// A message as text.
pub enum MessageView {
    Initialized,
    CloseSplashscreen,
    Command(Seq<char>),
}

impl View for Message {
    type V = MessageView;

    open spec fn view(&self) -> MessageView {
        match *self {
            Message::Initialized => MessageView::Initialized,
            Message::CloseSplashscreen => MessageView::CloseSplashscreen,
            Message::Command(command) => MessageView::Command(command@),
        }
    }
}

/// What a payload asks for: one of the two signals where it is exactly that signal's
/// text, else a command.
pub open spec fn message_of(payload: Seq<char>) -> MessageView {
    if payload == INITIALIZED@ {
        MessageView::Initialized
    } else if payload == CLOSE_SPLASHSCREEN@ {
        MessageView::CloseSplashscreen
    } else {
        MessageView::Command(payload)
    }
}

/// Tells the two signals from commands.
pub fn classify(payload: String) -> (message: Message)
    ensures
        message@ == message_of(payload@),
{
    if same_text(payload.as_str(), INITIALIZED) {
        Message::Initialized
    } else if same_text(payload.as_str(), CLOSE_SPLASHSCREEN) {
        Message::CloseSplashscreen
    } else {
        Message::Command(payload)
    }
}

/// What the host is to do on a message.
#[derive(Clone, Debug, PartialEq, Eq)]
pub enum Action {
    /// Run the application's setup for `source`; where `ready`, tell the plugins afterwards
    /// that the host is ready.
    Setup { source: Source, ready: bool },
    /// Evaluate this script in the window.
    Eval(String),
    /// Offer this command to the built-in endpoints, and hand their reply to
    /// `endpoints_replied`.
    Dispatch(String),
}

/// An action as text.
pub enum ActionView {
    Setup { source: Source, ready: bool },
    Eval(Seq<char>),
    Dispatch(Seq<char>),
}

impl View for Action {
    type V = ActionView;

    open spec fn view(&self) -> ActionView {
        match *self {
            Action::Setup { source, ready } => ActionView::Setup { source, ready },
            Action::Eval(script) => ActionView::Eval(script@),
            Action::Dispatch(command) => ActionView::Dispatch(command@),
        }
    }
}

/// The state that routing keeps between messages: the handshake, and the main content that
/// the window turns to when the splashscreen closes.
pub struct CommandRouter {
    handshake: Handshake,
    content: Content<String>,
}

/// A router's state as text.
pub struct RouterView {
    pub handshake: Handshake,
    pub content: Content<Seq<char>>,
}

impl View for CommandRouter {
    type V = RouterView;

    closed spec fn view(&self) -> RouterView {
        RouterView { handshake: self.handshake, content: self.content@ }
    }
}

/// The action on a message.
///
/// - The initialized signal: setup for the window that the handshake attributes it to, and
///   readiness where that is the main window.
/// - The close signal: a navigation to the main content, markup or address alike.
/// - Anything else: dispatch of the payload as a command.
pub open spec fn action_on(state: RouterView, raw: Seq<char>) -> ActionView {
    match message_of(payload_of(raw)) {
        MessageView::Initialized => ActionView::Setup {
            source: state.handshake.source(),
            ready: state.handshake.source() == Source::Window,
        },
        MessageView::CloseSplashscreen => ActionView::Eval(
            navigation_script(state.content.value()),
        ),
        MessageView::Command(command) => ActionView::Dispatch(command),
    }
}

/// The state after a message: the handshake moves on an initialized signal, and nothing
/// else ever changes.
pub open spec fn state_after(state: RouterView, raw: Seq<char>) -> RouterView {
    match message_of(payload_of(raw)) {
        MessageView::Initialized => RouterView {
            handshake: state.handshake.next(),
            content: state.content,
        },
        _ => state,
    }
}

impl CommandRouter {
    /// A router at the start of the handshake.
    pub fn new(has_splashscreen: bool, content: Content<String>) -> (router: CommandRouter)
        ensures
            router@ == (RouterView {
                handshake: Handshake::start(has_splashscreen),
                content: content@,
            }),
    {
        CommandRouter { handshake: Handshake::begin(has_splashscreen), content }
    }

    /// Routes one message.
    pub fn on_message(&mut self, raw: &str) -> (action: Action)
        ensures
            action@ == action_on(old(self)@, raw@),
            final(self)@ == state_after(old(self)@, raw@),
    {
        match classify(unwrap_message(raw)) {
            Message::Initialized => {
                let source = self.handshake.initialized();
                let ready = match source {
                    Source::Window => true,
                    Source::Splashscreen => false,
                };
                Action::Setup { source, ready }
            },
            Message::CloseSplashscreen => Action::Eval(navigation(self.content.get().as_str())),
            Message::Command(command) => Action::Dispatch(command),
        }
    }
}

/// The initialized signal asks for the setup of the window that the handshake attributes
/// it to, tells the plugins that the host is ready where that is the main window, and
/// moves the handshake on; the content stays.
pub proof fn lemma_initialized_signal(state: RouterView)
    ensures
        action_on(state, framed(INITIALIZED@)) == (ActionView::Setup {
            source: state.handshake.source(),
            ready: state.handshake != Handshake::AwaitingSplashscreen,
        }),
        state_after(state, framed(INITIALIZED@)) == (RouterView {
            handshake: state.handshake.next(),
            content: state.content,
        }),
{
    lemma_unwraps_frame(INITIALIZED@);
}

/// With a splashscreen the first initialized signal is routed to the splashscreen and the
/// second to the main window; without one, the first is routed to the main window.
pub proof fn lemma_first_signals(has_splashscreen: bool, content: Content<Seq<char>>)
    ensures
        ({
            let signal = framed(INITIALIZED@);
            let start = RouterView { handshake: Handshake::start(has_splashscreen), content };
            let window = ActionView::Setup { source: Source::Window, ready: true };
            let splashscreen = ActionView::Setup { source: Source::Splashscreen, ready: false };
            &&& action_on(start, signal) == if has_splashscreen {
                splashscreen
            } else {
                window
            }
            &&& action_on(state_after(start, signal), signal) == window
        }),
{
    let start = RouterView { handshake: Handshake::start(has_splashscreen), content };
    lemma_initialized_signal(start);
    lemma_initialized_signal(state_after(start, framed(INITIALIZED@)));
}

/// The close signal asks for one navigation to the main content, whatever the handshake,
/// and changes nothing.
pub proof fn lemma_close_signal(state: RouterView)
    ensures
        action_on(state, framed(CLOSE_SPLASHSCREEN@)) == ActionView::Eval(
            navigation_script(state.content.value()),
        ),
        state_after(state, framed(CLOSE_SPLASHSCREEN@)) == state,
{
    lemma_unwraps_frame(CLOSE_SPLASHSCREEN@);
    reveal_strlit("{\"cmd\":\"__initialized\"}");
    reveal_strlit("{\"cmd\":\"closeSplashscreen\"}");
    assert(CLOSE_SPLASHSCREEN@[8] != INITIALIZED@[8]);
}

/// What one handler tier made of a command.
#[derive(Clone, Debug, PartialEq, Eq)]
pub enum HandlerOutcome {
    /// The tier took the command and succeeded.
    Handled,
    /// The tier took the command and failed with this text.
    Failed(String),
    /// The tier did not know the command; with the text in which it said so, if any.
    NotMatched(Option<String>),
}

/// An outcome as text.
pub enum OutcomeView {
    Handled,
    Failed(Seq<char>),
    NotMatched(Option<Seq<char>>),
}

impl View for HandlerOutcome {
    type V = OutcomeView;

    open spec fn view(&self) -> OutcomeView {
        match *self {
            HandlerOutcome::Handled => OutcomeView::Handled,
            HandlerOutcome::Failed(text) => OutcomeView::Failed(text@),
            HandlerOutcome::NotMatched(Some(text)) => OutcomeView::NotMatched(Some(text@)),
            HandlerOutcome::NotMatched(None) => OutcomeView::NotMatched(None),
        }
    }
}

/// Whether an error text says that the handler did not know the command.
pub open spec fn says_unknown(text: Seq<char>) -> bool {
    occurs_in(text, UNKNOWN_COMMAND@)
}

/// The outcome of an error text: not matched where it says so, else a failure.
pub open spec fn outcome_of_error(text: Seq<char>) -> OutcomeView {
    if says_unknown(text) {
        OutcomeView::NotMatched(Some(text))
    } else {
        OutcomeView::Failed(text)
    }
}

/// The reply of the built-in endpoints as text.
pub open spec fn endpoint_reply_view(reply: Result<(), String>) -> Result<(), Seq<char>> {
    match reply {
        Ok(done) => Ok(done),
        Err(text) => Err(text@),
    }
}

/// The reply of a fallback handler as text.
pub open spec fn handler_reply_view(reply: Result<bool, String>) -> Result<bool, Seq<char>> {
    match reply {
        Ok(handled) => Ok(handled),
        Err(text) => Err(text@),
    }
}

/// The outcome of the built-in endpoints' reply.
pub open spec fn endpoint_outcome_of(reply: Result<(), Seq<char>>) -> OutcomeView {
    match reply {
        Ok(_) => OutcomeView::Handled,
        Err(text) => outcome_of_error(text),
    }
}

/// The outcome of a fallback handler's reply: `Ok(false)` declines without a text.
pub open spec fn handler_outcome_of(reply: Result<bool, Seq<char>>) -> OutcomeView {
    match reply {
        Ok(true) => OutcomeView::Handled,
        Ok(false) => OutcomeView::NotMatched(None),
        Err(text) => outcome_of_error(text),
    }
}

fn error_outcome(text: String) -> (outcome: HandlerOutcome)
    ensures
        outcome@ == outcome_of_error(text@),
{
    if contains(text.as_str(), UNKNOWN_COMMAND) {
        HandlerOutcome::NotMatched(Some(text))
    } else {
        HandlerOutcome::Failed(text)
    }
}

/// What the built-in endpoints made of a command.
pub fn endpoint_outcome(reply: Result<(), String>) -> (outcome: HandlerOutcome)
    ensures
        outcome@ == endpoint_outcome_of(endpoint_reply_view(reply)),
{
    match reply {
        Ok(_) => HandlerOutcome::Handled,
        Err(text) => error_outcome(text),
    }
}

/// What a fallback handler made of a command.
pub fn handler_outcome(reply: Result<bool, String>) -> (outcome: HandlerOutcome)
    ensures
        outcome@ == handler_outcome_of(handler_reply_view(reply)),
{
    match reply {
        Ok(true) => HandlerOutcome::Handled,
        Ok(false) => HandlerOutcome::NotMatched(None),
        Err(text) => error_outcome(text),
    }
}

/// The handlers that a command falls back to when the built-in endpoints do not know it.
#[derive(Clone, Copy, Debug, PartialEq, Eq)]
pub enum Tier {
    /// The invoke handler of the embedding application.
    Application,
    /// The command matcher of the plugins.
    Plugins,
}

/// A command that no tier has taken so far, and the tier to offer it to next.
pub struct Pending {
    tier: Tier,
    command: String,
    carried: String,
}

/// A pending command as text.
pub struct PendingView {
    /// The tier to ask next.
    pub tier: Tier,
    /// The command, as it was sent.
    pub command: Seq<char>,
    /// The text in which a tier last said that it did not know the command.
    pub carried: Seq<char>,
}

impl PendingView {
    /// The carried text says that the command was not known.
    pub open spec fn valid(self) -> bool {
        says_unknown(self.carried)
    }
}

impl View for Pending {
    type V = PendingView;

    closed spec fn view(&self) -> PendingView {
        PendingView { tier: self.tier, command: self.command@, carried: self.carried@ }
    }
}

/// How a dispatch goes on after a reply.
pub enum Step {
    /// Offer the command to the pending tier, and hand its reply to `handler_replied`.
    Ask(Pending),
    /// The dispatch is over; evaluate the script, if there is one.
    Done(Option<String>),
}

/// A step as text.
pub enum StepView {
    Ask(PendingView),
    Done(Option<Seq<char>>),
}

impl View for Step {
    type V = StepView;

    open spec fn view(&self) -> StepView {
        match *self {
            Step::Ask(pending) => StepView::Ask(pending@),
            Step::Done(Some(script)) => StepView::Done(Some(script@)),
            Step::Done(None) => StepView::Done(None),
        }
    }
}

/// The end of a dispatch with an error text: nothing where the text is empty, else the
/// report of the command and the text, quotes escaped.
pub open spec fn finished(command: Seq<char>, text: Seq<char>) -> StepView {
    if escaped(text).len() == 0 {
        StepView::Done(None)
    } else {
        StepView::Done(Some(error_report(command, escaped(text))))
    }
}

/// The step after the built-in endpoints replied: over where they took the command, on to
/// the application's handler where they did not know it.
pub open spec fn after_endpoints(command: Seq<char>, reply: Result<(), Seq<char>>) -> StepView {
    match endpoint_outcome_of(reply) {
        OutcomeView::Handled => StepView::Done(None),
        OutcomeView::Failed(text) => finished(command, text),
        OutcomeView::NotMatched(Some(text)) => StepView::Ask(
            PendingView { tier: Tier::Application, command, carried: text },
        ),
        OutcomeView::NotMatched(None) => StepView::Done(None),
    }
}

/// The step after a fallback handler replied: over where it took the command; else on to
/// the plugins after the application, and over with a report after the plugins. A handler
/// that declines without a text leaves the carried text as it is.
pub open spec fn after_handler(pending: PendingView, reply: Result<bool, Seq<char>>) -> StepView {
    match handler_outcome_of(reply) {
        OutcomeView::Handled => StepView::Done(None),
        OutcomeView::Failed(text) => finished(pending.command, text),
        OutcomeView::NotMatched(own) => {
            let text = match own {
                Some(text) => text,
                None => pending.carried,
            };
            match pending.tier {
                Tier::Application => StepView::Ask(
                    PendingView { tier: Tier::Plugins, command: pending.command, carried: text },
                ),
                Tier::Plugins => finished(pending.command, text),
            }
        },
    }
}

fn finish(command: &str, text: String) -> (step: Step)
    ensures
        step@ == finished(command@, text@),
{
    let shown = escape(text.as_str());
    if shown.as_str().is_empty() {
        Step::Done(None)
    } else {
        Step::Done(Some(get_api_error_message(command, shown)))
    }
}

impl Pending {
    #[verifier::type_invariant]
    spec fn carried_says_unknown(&self) -> bool {
        self@.valid()
    }

    /// The tier to offer the command to.
    pub fn tier(&self) -> (tier: Tier)
        ensures
            tier == self@.tier,
            self@.valid(),
    {
        proof {
            use_type_invariant(self);
        }
        self.tier
    }

    /// The command to offer.
    pub fn command(&self) -> (command: &String)
        ensures
            command@ == self@.command,
    {
        &self.command
    }
}

/// Takes the reply of the built-in endpoints to `command`.
pub fn endpoints_replied(command: String, reply: Result<(), String>) -> (step: Step)
    ensures
        step@ == after_endpoints(command@, endpoint_reply_view(reply)),
{
    match endpoint_outcome(reply) {
        HandlerOutcome::Handled => Step::Done(None),
        HandlerOutcome::Failed(text) => finish(command.as_str(), text),
        HandlerOutcome::NotMatched(Some(text)) => Step::Ask(
            Pending { tier: Tier::Application, command, carried: text },
        ),
        HandlerOutcome::NotMatched(None) => Step::Done(None),
    }
}

/// Takes the reply of the pending tier.
pub fn handler_replied(pending: Pending, reply: Result<bool, String>) -> (step: Step)
    ensures
        step@ == after_handler(pending@, handler_reply_view(reply)),
        pending@.valid(),
{
    proof {
        use_type_invariant(&pending);
    }
    match handler_outcome(reply) {
        HandlerOutcome::Handled => Step::Done(None),
        HandlerOutcome::Failed(text) => finish(pending.command.as_str(), text),
        HandlerOutcome::NotMatched(own) => {
            let Pending { tier, command, carried } = pending;
            let text = match own {
                Some(text) => text,
                None => carried,
            };
            match tier {
                Tier::Application => Step::Ask(
                    Pending { tier: Tier::Plugins, command, carried: text },
                ),
                Tier::Plugins => finish(command.as_str(), text),
            }
        },
    }
}

/// Whether a tier's outcome leaves the command to the next tier.
pub open spec fn unmatched(outcome: OutcomeView) -> bool {
    outcome is NotMatched
}

/// A command that the built-in endpoints and the application's handler did not know, and
/// that the plugins take, ends without a report.
pub proof fn lemma_plugins_take_command(
    command: Seq<char>,
    endpoints: Result<(), Seq<char>>,
    application: Result<bool, Seq<char>>,
)
    requires
        unmatched(endpoint_outcome_of(endpoints)),
        unmatched(handler_outcome_of(application)),
    ensures
        ({
            &&& after_endpoints(command, endpoints) matches StepView::Ask(first)
            &&& first.valid()
            &&& first.tier == Tier::Application
            &&& first.command == command
            &&& after_handler(first, application) matches StepView::Ask(second)
            &&& second.valid()
            &&& second.tier == Tier::Plugins
            &&& second.command == command
            &&& after_handler(second, Ok(true)) == StepView::Done(None)
        }),
{
}

/// A command that none of the three tiers knew ends with one error report, which holds
/// the command, its quotes escaped: the command itself where it has no quote.
pub proof fn lemma_no_tier_takes_command(
    command: Seq<char>,
    endpoints: Result<(), Seq<char>>,
    application: Result<bool, Seq<char>>,
    plugins: Result<bool, Seq<char>>,
)
    requires
        unmatched(endpoint_outcome_of(endpoints)),
        unmatched(handler_outcome_of(application)),
        unmatched(handler_outcome_of(plugins)),
    ensures
        ({
            &&& after_endpoints(command, endpoints) matches StepView::Ask(first)
            &&& after_handler(first, application) matches StepView::Ask(second)
            &&& after_handler(second, plugins) matches StepView::Done(Some(script))
            &&& occurs_in(script, escaped(command))
            &&& !occurs_in(command, QUOTE@) ==> occurs_in(script, command)
        }),
{
    let first = after_endpoints(command, endpoints)->Ask_0;
    let second = after_handler(first, application)->Ask_0;
    assert(second.valid());
    let text = match handler_outcome_of(plugins) {
        OutcomeView::NotMatched(Some(text)) => text,
        _ => second.carried,
    };
    assert(says_unknown(text));
    reveal_strlit("unknown variant");
    let at = choose|at: int| occurs_at(text, UNKNOWN_COMMAND@, at);
    assert(text.len() > 0);
    lemma_escaped_is_empty(text);
    lemma_error_report_holds(command, escaped(text));
    if !occurs_in(command, QUOTE@) {
        lemma_escaped_without_quote(command);
    }
}

} // verus!
