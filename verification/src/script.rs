//! The scripts that are handed to the webview: the event bootstrap, the invoke-handler
//! bootstrap, navigation and error reports.

use vstd::prelude::*;
use vstd::string::*;
use crate::text::{
    lemma_middle_occurs, lemma_replaced_without_occurrence, occurs_in, replace, replaced,
};

verus! {

/// Opens the event script: the declaration of the queue of pending events, up to its name.
pub const QUEUE_DECLARATION: &'static str = "
      window['";

/// After the queue's name: the declaration of the dispatch function, up to its name.
pub const EMIT_DECLARATION: &'static str = "'] = [];
      window['";

/// After the dispatch function's name: its head, up to the name of the listener registry.
pub const LISTENER_LOOKUP: &'static str = "'] = function (payload, salt, ignoreQueue) {
      const listeners = (window['";

/// Between the two mentions of the listener registry.
pub const LISTENER_GUARD: &'static str = "'] && window['";

/// After the listener registry: the test for buffering, up to the queue's name.
pub const QUEUE_PUSH: &'static str = "'][payload.type]) || []
      if (!ignoreQueue && listeners.length === 0) {
        window['";

/// Closes the event script: buffering, then delivery once the salt has been validated, the
/// listener registered last first, a one-shot listener removed before it runs.
pub const DELIVERY: &'static str = "'].push({
          payload: payload,
          salt: salt
        })
      }

      if (listeners.length > 0) {
        window.__TAURI__.promisified({
          cmd: 'validateSalt',
          salt: salt
        }).then(function () {
          for (let i = listeners.length - 1; i >= 0; i--) {
            const listener = listeners[i]
            if (listener.once)
              listeners.splice(i, 1)
            listener.handler(payload)
          }
        })
      }
    }
    ";

/// Opens the bootstrap script.
pub const BOOTSTRAP_OPEN: &'static str = "
      ";

/// The name under which the native side binds its handler, and under which scripts send
/// their messages.
pub const INVOKE_HANDLER: &'static str = "__TAURI_INVOKE_HANDLER__";

/// Opens the initialized signal: the test whether the handler is bound, up to its name.
pub const SIGNAL_TEST: &'static str = "
      if (window.";

/// Where the handler is bound already: up to the call that signals at once.
pub const SIGNAL_NOW: &'static str = ") {
        window.";

/// The signal itself, then the listener that waits for the document, up to its call of
/// the handler.
pub const SIGNAL_DEFERRED: &'static str = "({ cmd: \"__initialized\" })
      } else {
        window.addEventListener('DOMContentLoaded', function () {
          window.";

/// The signal once more, and the end of the listener.
pub const SIGNAL_CLOSE: &'static str = "({ cmd: \"__initialized\" })
        })
      }
      ";

/// Closes the bootstrap script.
pub const BOOTSTRAP_CLOSE: &'static str = "
    ";

} // verus!

verus! {

/// The names of the three globals that the event script uses.
pub struct EventNames {
    emit: String,
    queue: String,
    listeners: String,
}

/// The three names as text.
pub struct EventNamesView {
    /// The dispatch function.
    pub emit: Seq<char>,
    /// The queue of pending events.
    pub queue: Seq<char>,
    /// The listener registry.
    pub listeners: Seq<char>,
}

/// A character that may stand in a name: an ASCII letter or digit, `_` or `-`.
pub open spec fn is_name_char(c: char) -> bool {
    ||| 'a' <= c <= 'z'
    ||| 'A' <= c <= 'Z'
    ||| '0' <= c <= '9'
    ||| c == '_'
    ||| c == '-'
}

/// A name that can stand between quotes in a script: not empty, and made of name characters.
pub open spec fn is_name(name: Seq<char>) -> bool {
    &&& name.len() > 0
    &&& forall|i: int| 0 <= i < name.len() ==> is_name_char(#[trigger] name[i])
}

impl EventNamesView {
    /// All three are names.
    pub open spec fn valid(self) -> bool {
        is_name(self.emit) && is_name(self.queue) && is_name(self.listeners)
    }
}

impl View for EventNames {
    type V = EventNamesView;

    closed spec fn view(&self) -> EventNamesView {
        EventNamesView { emit: self.emit@, queue: self.queue@, listeners: self.listeners@ }
    }
}

/// Whether `name` can stand between quotes in a script.
pub fn check_name(name: &str) -> (valid: bool)
    ensures
        valid == is_name(name@),
{
    let mut any = false;
    let source = name.chars();
    for c in it: source
        invariant
            it.seq() == name@,
            any == (it.index() > 0),
            forall|i: int| 0 <= i < it.index() ==> is_name_char(#[trigger] name@[i]),
    {
        let fits = ('a' <= c && c <= 'z') || ('A' <= c && c <= 'Z') || ('0' <= c && c <= '9') || c
            == '_' || c == '-';
        if !fits {
            return false;
        }
        any = true;
    }
    any
}

impl EventNames {
    #[verifier::type_invariant]
    spec fn names_are_valid(&self) -> bool {
        self@.valid()
    }

    /// The three names, where each can stand between quotes in a script.
    pub fn new(emit: String, queue: String, listeners: String) -> (names: Option<EventNames>)
        ensures
            match names {
                Some(names) => {
                    &&& names@ == (EventNamesView {
                        emit: emit@,
                        queue: queue@,
                        listeners: listeners@,
                    })
                    &&& names@.valid()
                },
                None => !(is_name(emit@) && is_name(queue@) && is_name(listeners@)),
            },
    {
        if check_name(emit.as_str()) && check_name(queue.as_str()) && check_name(
            listeners.as_str(),
        ) {
            Some(EventNames { emit, queue, listeners })
        } else {
            None
        }
    }
}

/// The event script for the given names.
pub open spec fn event_script(names: EventNamesView) -> Seq<char> {
    QUEUE_DECLARATION@ + names.queue + EMIT_DECLARATION@ + names.emit + LISTENER_LOOKUP@
        + names.listeners + LISTENER_GUARD@ + names.listeners + QUEUE_PUSH@ + names.queue
        + DELIVERY@
}

/// The event script of an application: the script for its names, and nothing where it
/// uses no events.
pub open spec fn event_init_of(names: Option<EventNames>) -> Seq<char> {
    match names {
        Some(names) => event_script(names@),
        None => Seq::empty(),
    }
}

/// The script that declares the queue of pending events and the dispatch function; the
/// empty script where the application uses no events.
pub fn init(names: &Option<EventNames>) -> (script: String)
    ensures
        script@ == event_init_of(*names),
        names matches Some(given) ==> given@.valid(),
{
    match names {
        Some(names) => {
            proof {
                use_type_invariant(names);
            }
            let mut script = String::from_str(QUEUE_DECLARATION);
            script.append(names.queue.as_str());
            script.append(EMIT_DECLARATION);
            script.append(names.emit.as_str());
            script.append(LISTENER_LOOKUP);
            script.append(names.listeners.as_str());
            script.append(LISTENER_GUARD);
            script.append(names.listeners.as_str());
            script.append(QUEUE_PUSH);
            script.append(names.queue.as_str());
            script.append(DELIVERY);
            script
        },
        None => String::new(),
    }
}

} // verus!

verus! {

/// The script that sends the initialized signal to the handler: at once where the handler
/// is bound already, else when the document has loaded.
pub open spec fn signal_script() -> Seq<char> {
    SIGNAL_TEST@ + INVOKE_HANDLER@ + SIGNAL_NOW@ + INVOKE_HANDLER@ + SIGNAL_DEFERRED@
        + INVOKE_HANDLER@ + SIGNAL_CLOSE@
}

/// The bootstrap script: the event script, the initialized signal, the plugins' script.
pub open spec fn bootstrap_script(event_init: Seq<char>, plugin_init: Seq<char>) -> Seq<char> {
    BOOTSTRAP_OPEN@ + event_init + signal_script() + plugin_init + BOOTSTRAP_CLOSE@
}

/// The bootstrap script calls the handler under the name that it is bound under.
pub proof fn lemma_bootstrap_names_handler(event_init: Seq<char>, plugin_init: Seq<char>)
    ensures
        occurs_in(bootstrap_script(event_init, plugin_init), INVOKE_HANDLER@),
{
    let before = BOOTSTRAP_OPEN@ + event_init + SIGNAL_TEST@;
    let after = SIGNAL_NOW@ + INVOKE_HANDLER@ + SIGNAL_DEFERRED@ + INVOKE_HANDLER@ + SIGNAL_CLOSE@
        + plugin_init + BOOTSTRAP_CLOSE@;
    lemma_middle_occurs(before, INVOKE_HANDLER@, after);
    assert(before + INVOKE_HANDLER@ + after =~= bootstrap_script(event_init, plugin_init));
}

/// The one script that is evaluated before any script of the document.
pub fn bootstrap(event_init: &str, plugin_init: &str) -> (script: String)
    ensures
        script@ == bootstrap_script(event_init@, plugin_init@),
{
    let mut signal = String::from_str(SIGNAL_TEST);
    signal.append(INVOKE_HANDLER);
    signal.append(SIGNAL_NOW);
    signal.append(INVOKE_HANDLER);
    signal.append(SIGNAL_DEFERRED);
    signal.append(INVOKE_HANDLER);
    signal.append(SIGNAL_CLOSE);
    let mut script = String::from_str(BOOTSTRAP_OPEN);
    script.append(event_init);
    script.append(signal.as_str());
    script.append(plugin_init);
    script.append(BOOTSTRAP_CLOSE);
    script
}

/// Opens a navigation: the assignment to the window's location, up to the address.
pub const NAVIGATION_OPEN: &'static str = "window.location.href = \"";

/// Closes a navigation.
pub const NAVIGATION_CLOSE: &'static str = "\"";

/// The script that sends the window to `href`.
pub open spec fn navigation_script(href: Seq<char>) -> Seq<char> {
    NAVIGATION_OPEN@ + href + NAVIGATION_CLOSE@
}

/// The script that sends the window to `href`.
pub fn navigation(href: &str) -> (script: String)
    ensures
        script@ == navigation_script(href@),
{
    let mut script = String::from_str(NAVIGATION_OPEN);
    script.append(href);
    script.append(NAVIGATION_CLOSE);
    script
}

/// A single quote.
pub const QUOTE: &'static str = "'";

/// A single quote behind a backslash.
pub const ESCAPED_QUOTE: &'static str = "\\'";

/// Opens an error report, up to the command.
pub const REPORT_OPEN: &'static str = "console.error('failed to match a command for ";

/// Between the command and the message of an error report.
pub const REPORT_JOIN: &'static str = ", ";

/// Closes an error report.
pub const REPORT_CLOSE: &'static str = "')";

/// `text` with a backslash before every single quote, so that it can stand between single
/// quotes in a script.
pub open spec fn escaped(text: Seq<char>) -> Seq<char> {
    replaced(text, QUOTE@, ESCAPED_QUOTE@)
}

/// The script that reports on the console that `command` failed with `message`. The
/// command's quotes are escaped; the message stands as it is.
pub open spec fn error_report(command: Seq<char>, message: Seq<char>) -> Seq<char> {
    REPORT_OPEN@ + escaped(command) + REPORT_JOIN@ + message + REPORT_CLOSE@
}

/// `text` with a backslash before every single quote.
pub fn escape(text: &str) -> (out: String)
    ensures
        out@ == escaped(text@),
{
    replace(text, QUOTE, ESCAPED_QUOTE)
}

/// The script that reports on the console that the command `arg` failed with
/// `handler_error_message`.
pub fn get_api_error_message(arg: &str, handler_error_message: String) -> (script: String)
    ensures
        script@ == error_report(arg@, handler_error_message@),
{
    let mut script = String::from_str(REPORT_OPEN);
    let command = escape(arg);
    script.append(command.as_str());
    script.append(REPORT_JOIN);
    script.append(handler_error_message.as_str());
    script.append(REPORT_CLOSE);
    script
}

/// A text without a single quote is its own escaped form.
pub proof fn lemma_escaped_without_quote(text: Seq<char>)
    requires
        !occurs_in(text, QUOTE@),
    ensures
        escaped(text) == text,
{
    lemma_replaced_without_occurrence(text, QUOTE@, ESCAPED_QUOTE@);
}

/// Escaping leaves no text empty but the empty one.
pub proof fn lemma_escaped_is_empty(text: Seq<char>)
    ensures
        escaped(text).len() == 0 <==> text.len() == 0,
{
    reveal_strlit("'");
    reveal_strlit("\\'");
}

/// An error report holds the command, its quotes escaped, and the message.
pub proof fn lemma_error_report_holds(command: Seq<char>, message: Seq<char>)
    ensures
        occurs_in(error_report(command, message), escaped(command)),
        occurs_in(error_report(command, message), message),
{
    lemma_middle_occurs(REPORT_OPEN@, escaped(command), REPORT_JOIN@ + message + REPORT_CLOSE@);
    assert(REPORT_OPEN@ + escaped(command) + (REPORT_JOIN@ + message + REPORT_CLOSE@)
        =~= error_report(command, message));
    lemma_middle_occurs(REPORT_OPEN@ + escaped(command) + REPORT_JOIN@, message, REPORT_CLOSE@);
}

} // verus!
