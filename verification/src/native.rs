//! The native-invoke bridge: the single entry through which a script calls
//! a named host API.
//!
//! The embedding program reads the arguments, looks the name up in the API
//! registry and calls the handler. This module decides what happens in
//! between and words every error that is thrown back into the script. No
//! input of a script makes it fail: every error ends as a thrown message.

use vstd::prelude::*;

verus! {

/// Request id that is reported when no executor is current.
pub const UNKNOWN_REQUEST: &'static str = "unknown";

/// The text that the standard library's `Debug` formatting of a string
/// produces: the string in double quotes, with escapes.
pub uninterp spec fn debug_text(s: Seq<char>) -> Seq<char>;

/// Formats `s` with `{:?}`, the `Debug` implementation of `str` in the
/// standard library. Nothing is claimed of the result but that it is the
/// same for the same string.
#[verifier::external_body]
fn debug_string(s: &str) -> (r: String)
    ensures
        r@ == debug_text(s@),
{
    format!("{:?}", s)
}

/// Message for a call whose first argument is not a string. `request_tag`
/// is the request id as it is to appear, quotes included.
pub open spec fn name_error_text(app_key: Seq<char>, request_tag: Seq<char>, reason: Seq<char>) -> Seq<char> {
    "cannot get native api name, app "@ + app_key + " request "@ + request_tag + ": "@ + reason
}

/// Message for a call whose handler failed.
pub open spec fn handler_error_text(app_key: Seq<char>, request_tag: Seq<char>, reason: Seq<char>) -> Seq<char> {
    "native invoke error from app "@ + app_key + " request "@ + request_tag + ": "@ + reason
}

/// Message for a call that names no registered API.
pub open spec fn unknown_api_text(app_key: Seq<char>, request_tag: Seq<char>, api_name: Seq<char>) -> Seq<char> {
    "app "@ + app_key + " request "@ + request_tag + " is invoking an unknown native api: "@ + api_name
}

/// Words the error of a call whose first argument is not a string.
pub fn name_error_message(app_key: &str, request_tag: &str, reason: &str) -> (message: String)
    ensures
        message@ == name_error_text(app_key@, request_tag@, reason@),
{
    let mut message = String::from_str("cannot get native api name, app ");
    message.append(app_key);
    message.append(" request ");
    message.append(request_tag);
    message.append(": ");
    message.append(reason);
    message
}

/// Words the error of a call whose handler failed.
pub fn handler_error_message(app_key: &str, request_tag: &str, reason: &str) -> (message: String)
    ensures
        message@ == handler_error_text(app_key@, request_tag@, reason@),
{
    let mut message = String::from_str("native invoke error from app ");
    message.append(app_key);
    message.append(" request ");
    message.append(request_tag);
    message.append(": ");
    message.append(reason);
    message
}

/// Words the error of a call that names no registered API.
pub fn unknown_api_message(app_key: &str, request_tag: &str, api_name: &str) -> (message: String)
    ensures
        message@ == unknown_api_text(app_key@, request_tag@, api_name@),
{
    let mut message = String::from_str("app ");
    message.append(app_key);
    message.append(" request ");
    message.append(request_tag);
    message.append(" is invoking an unknown native api: ");
    message.append(api_name);
    message
}

/// How far one call through the bridge has come.
#[derive(Copy, Clone, Debug, PartialEq, Eq, Structural)]
pub enum InvokePhase {
    /// The first argument is being read as the API's name.
    ReadingName,
    /// The name is being looked up in the API registry.
    Resolving,
    /// The handler is running.
    Calling,
    /// The call is over.
    Done,
}

/// What the embedding program observed during one call.
#[derive(Debug, Clone, PartialEq, Eq)]
pub enum InvokeEvent {
    /// The first argument is this string.
    NameRead { name: String },
    /// The first argument is not a string; `reason` says why.
    NameUnreadable { reason: String },
    /// The registry has a handler under the name.
    HandlerFound,
    /// The registry has no handler under the name.
    HandlerMissing,
    /// The handler returned without an error.
    HandlerReturned,
    /// The handler returned this error.
    HandlerFailed { reason: String },
}

/// What the embedding program has to do next during one call.
#[derive(Debug, Clone, PartialEq, Eq)]
pub enum InvokeStep {
    /// Look this name up in the API registry.
    Resolve { api_name: String },
    /// Call the handler that was found with the scope, the arguments and
    /// the return-value slot.
    Call,
    /// Return to the script.
    Return,
    /// Nothing: the event does not apply at this point of the call.
    Ignore,
}

/// What the bridge does at the end of a step.
#[derive(Debug, Clone, PartialEq, Eq)]
pub enum InvokeAction {
    /// Carry on with this step.
    Proceed { step: InvokeStep },
    /// Throw an `Error` with this message into the script.
    Throw { message: String },
}

/// Mathematical state of one call.
pub struct InvokeView {
    pub app_key: Seq<char>,
    /// The request id as it appears in messages, quotes included.
    pub request_tag: Seq<char>,
    pub api_name: Seq<char>,
    pub phase: InvokePhase,
}

/// The message of the error with which `event` ends a call in state `call`,
/// if it does.
pub open spec fn invoke_error(call: InvokeView, event: InvokeEvent) -> Option<Seq<char>> {
    match (call.phase, event) {
        (InvokePhase::ReadingName, InvokeEvent::NameUnreadable { reason }) => Some(
            name_error_text(call.app_key, call.request_tag, reason@),
        ),
        (InvokePhase::Resolving, InvokeEvent::HandlerMissing) => Some(
            unknown_api_text(call.app_key, call.request_tag, call.api_name),
        ),
        (InvokePhase::Calling, InvokeEvent::HandlerFailed { reason }) => Some(
            handler_error_text(call.app_key, call.request_tag, reason@),
        ),
        _ => None,
    }
}

/// The call after `event`.
pub open spec fn invoke_after(call: InvokeView, event: InvokeEvent) -> InvokeView {
    if invoke_error(call, event) is Some {
        InvokeView { phase: InvokePhase::Done, ..call }
    } else {
        match (call.phase, event) {
            (InvokePhase::ReadingName, InvokeEvent::NameRead { name }) => InvokeView {
                phase: InvokePhase::Resolving,
                api_name: name@,
                ..call
            },
            (InvokePhase::Resolving, InvokeEvent::HandlerFound) => InvokeView { phase: InvokePhase::Calling, ..call },
            (InvokePhase::Calling, InvokeEvent::HandlerReturned) => InvokeView { phase: InvokePhase::Done, ..call },
            _ => call,
        }
    }
}

/// `step` is how a call in state `call` carries on after `event`, given
/// that the event is no error.
pub open spec fn invoke_step_spec(call: InvokeView, event: InvokeEvent, step: InvokeStep) -> bool {
    match (call.phase, event) {
        (InvokePhase::ReadingName, InvokeEvent::NameRead { name }) => step matches InvokeStep::Resolve { api_name }
            && api_name@ == name@,
        (InvokePhase::Resolving, InvokeEvent::HandlerFound) => step is Call,
        (InvokePhase::Calling, InvokeEvent::HandlerReturned) => step is Return,
        _ => step is Ignore,
    }
}

/// One call through the bridge.
#[derive(Debug)]
pub struct NativeInvoke {
    app_key: String,
    request_tag: String,
    api_name: String,
    phase: InvokePhase,
}

impl View for NativeInvoke {
    type V = InvokeView;

    closed spec fn view(&self) -> InvokeView {
        InvokeView {
            app_key: self.app_key@,
            request_tag: self.request_tag@,
            api_name: self.api_name@,
            phase: self.phase,
        }
    }
}

/// The request id that a call reports: that of the current executor, or
/// `unknown` when there is none.
pub open spec fn request_id_of(current: Option<String>) -> Seq<char> {
    match current {
        Some(id) => id@,
        None => UNKNOWN_REQUEST@,
    }
}

impl NativeInvoke {
    /// A call that begins, made by the app with key `app_key` on behalf of
    /// the request of the current executor, if there is one.
    pub fn new(app_key: String, current_request: Option<String>) -> (call: NativeInvoke)
        ensures
            call@ == (InvokeView {
                app_key: app_key@,
                request_tag: debug_text(request_id_of(current_request)),
                api_name: Seq::<char>::empty(),
                phase: InvokePhase::ReadingName,
            }),
    {
        let request_tag = match current_request {
            Some(id) => debug_string(id.as_str()),
            None => debug_string(UNKNOWN_REQUEST),
        };
        NativeInvoke { app_key, request_tag, api_name: String::new(), phase: InvokePhase::ReadingName }
    }

    /// How far the call has come.
    pub fn phase(&self) -> (phase: InvokePhase)
        ensures
            phase == self@.phase,
    {
        self.phase
    }

    /// The request id as it appears in messages, quotes included.
    pub fn request_tag(&self) -> (tag: &String)
        ensures
            tag@ == self@.request_tag,
    {
        &self.request_tag
    }
}

/// Advances one call by one observed event. The result is the next step, or
/// the message of the error that ends the call: the first argument is not a
/// string, no API is registered under the name, or the handler failed. Each
/// message names the app and the request.
pub fn native_invoke_entry_impl(call: &mut NativeInvoke, event: InvokeEvent) -> (r: Result<InvokeStep, String>)
    ensures
        final(call)@ == invoke_after(old(call)@, event),
        match invoke_error(old(call)@, event) {
            Some(message) => r matches Err(thrown) && thrown@ == message,
            None => r matches Ok(step) && invoke_step_spec(old(call)@, event, step),
        },
{
    match (call.phase, event) {
        (InvokePhase::ReadingName, InvokeEvent::NameRead { name }) => {
            call.phase = InvokePhase::Resolving;
            call.api_name = name.clone();
            Ok(InvokeStep::Resolve { api_name: name })
        },
        (InvokePhase::ReadingName, InvokeEvent::NameUnreadable { reason }) => {
            call.phase = InvokePhase::Done;
            Err(name_error_message(call.app_key.as_str(), call.request_tag.as_str(), reason.as_str()))
        },
        (InvokePhase::Resolving, InvokeEvent::HandlerFound) => {
            call.phase = InvokePhase::Calling;
            Ok(InvokeStep::Call)
        },
        (InvokePhase::Resolving, InvokeEvent::HandlerMissing) => {
            call.phase = InvokePhase::Done;
            Err(unknown_api_message(call.app_key.as_str(), call.request_tag.as_str(), call.api_name.as_str()))
        },
        (InvokePhase::Calling, InvokeEvent::HandlerReturned) => {
            call.phase = InvokePhase::Done;
            Ok(InvokeStep::Return)
        },
        (InvokePhase::Calling, InvokeEvent::HandlerFailed { reason }) => {
            call.phase = InvokePhase::Done;
            Err(handler_error_message(call.app_key.as_str(), call.request_tag.as_str(), reason.as_str()))
        },
        _ => Ok(InvokeStep::Ignore),
    }
}

/// Advances one call by one observed event and turns an error into the
/// message of the `Error` that is thrown into the script.
pub fn native_invoke_entry(call: &mut NativeInvoke, event: InvokeEvent) -> (action: InvokeAction)
    ensures
        final(call)@ == invoke_after(old(call)@, event),
        match invoke_error(old(call)@, event) {
            Some(message) => action matches InvokeAction::Throw { message: thrown } && thrown@ == message,
            None => action matches InvokeAction::Proceed { step } && invoke_step_spec(old(call)@, event, step),
        },
{
    match native_invoke_entry_impl(call, event) {
        Ok(step) => InvokeAction::Proceed { step },
        Err(message) => InvokeAction::Throw { message },
    }
}

/// `part` stands in `text`, in one piece, from position `at` on.
pub open spec fn occurs_at(text: Seq<char>, part: Seq<char>, at: int) -> bool {
    0 <= at && at + part.len() <= text.len() && text.subrange(at, at + part.len()) == part
}

/// `part` stands somewhere in `text`, in one piece.
pub open spec fn mentions(text: Seq<char>, part: Seq<char>) -> bool {
    exists|at: int| occurs_at(text, part, at)
}

/// Every message that the bridge throws names the app, the request (as it
/// is tagged) and what went wrong: the reason, or the API that is unknown.
pub proof fn lemma_messages_name_app_and_request(app_key: Seq<char>, request_tag: Seq<char>, detail: Seq<char>)
    ensures
        mentions(name_error_text(app_key, request_tag, detail), app_key),
        mentions(name_error_text(app_key, request_tag, detail), request_tag),
        mentions(name_error_text(app_key, request_tag, detail), detail),
        mentions(handler_error_text(app_key, request_tag, detail), app_key),
        mentions(handler_error_text(app_key, request_tag, detail), request_tag),
        mentions(handler_error_text(app_key, request_tag, detail), detail),
        mentions(unknown_api_text(app_key, request_tag, detail), app_key),
        mentions(unknown_api_text(app_key, request_tag, detail), request_tag),
        mentions(unknown_api_text(app_key, request_tag, detail), detail),
{
    lemma_parts_are_mentioned("cannot get native api name, app "@, app_key, " request "@, request_tag, ": "@, detail);
    lemma_parts_are_mentioned("native invoke error from app "@, app_key, " request "@, request_tag, ": "@, detail);
    lemma_parts_are_mentioned(
        "app "@,
        app_key,
        " request "@,
        request_tag,
        " is invoking an unknown native api: "@,
        detail,
    );
}

/// A text put together from six pieces mentions the second, the fourth and
/// the sixth.
proof fn lemma_parts_are_mentioned(
    a: Seq<char>,
    b: Seq<char>,
    c: Seq<char>,
    d: Seq<char>,
    e: Seq<char>,
    f: Seq<char>,
)
    ensures
        mentions(a + b + c + d + e + f, b),
        mentions(a + b + c + d + e + f, d),
        mentions(a + b + c + d + e + f, f),
{
    let text = a + b + c + d + e + f;
    let at_b = a.len() as int;
    let at_d = (a.len() + b.len() + c.len()) as int;
    let at_f = (a.len() + b.len() + c.len() + d.len() + e.len()) as int;
    assert(text.subrange(at_b, at_b + b.len()) =~= b);
    assert(text.subrange(at_d, at_d + d.len()) =~= d);
    assert(text.subrange(at_f, at_f + f.len()) =~= f);
    assert(occurs_at(text, b, at_b));
    assert(occurs_at(text, d, at_d));
    assert(occurs_at(text, f, at_f));
}

/// A call that is over stays over and throws nothing more.
pub proof fn lemma_finished_call_is_silent(call: InvokeView, event: InvokeEvent)
    requires
        call.phase is Done,
    ensures
        invoke_after(call, event) == call,
        invoke_error(call, event) is None,
{
}

/// A handler is called only after its name was read and found in the
/// registry: the phase in which it runs is entered from the look-up alone.
pub proof fn lemma_call_needs_found_handler(call: InvokeView, event: InvokeEvent)
    requires
        !(call.phase is Calling),
        invoke_after(call, event).phase is Calling,
    ensures
        call.phase is Resolving,
        event is HandlerFound,
{
}

} // verus!
