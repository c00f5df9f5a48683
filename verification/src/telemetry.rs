//! What the handlers report of a request, as values that the caller hands to
//! its logging sink.

use crate::identity::hyphenated_text;
use crate::identity::Id;
use vstd::prelude::*;
use vstd::string::StringExecFns;

verus! {

/// How grave an event is.
#[derive(Clone, Copy, Debug, PartialEq, Eq, Structural)]
pub enum Level {
    Info,
    Error,
}

/// One log line of a request. It carries the identifier that correlates all
/// lines of that request.
#[derive(Clone, Debug, PartialEq, Eq)]
pub struct LogEvent {
    pub level: Level,
    pub request_id: Id,
    pub message: String,
}

/// What a log line holds, its message as a sequence of characters.
pub ghost struct LogEventView {
    pub level: Level,
    pub request_id: Id,
    pub message: Seq<char>,
}

impl View for LogEvent {
    type V = LogEventView;

    open spec fn view(&self) -> LogEventView {
        LogEventView { level: self.level, request_id: self.request_id, message: self.message@ }
    }
}

/// The context of one request: the identifier drawn when its handling began.
/// It lives as long as the request is handled and is never stored.
#[derive(Clone, Copy, Debug, PartialEq, Eq, Structural)]
pub struct RequestContext {
    pub request_id: Id,
}

/// A message as it is logged: led by the identifier of the request.
pub open spec fn tagged_message(request_id: Id, text: Seq<char>) -> Seq<char> {
    "request_id "@ + hyphenated_text(request_id.value) + " - "@ + text
}

/// The log line of a request with the given level and text.
pub open spec fn tagged_event(request_id: Id, level: Level, text: Seq<char>) -> LogEventView {
    LogEventView { level, request_id, message: tagged_message(request_id, text) }
}

impl RequestContext {
    /// The context of the request with the given identifier.
    pub fn new(request_id: Id) -> (context: RequestContext)
        ensures
            context.request_id == request_id,
    {
        RequestContext { request_id }
    }

    /// A log line of this request: it carries the request's identifier, as a
    /// field and at the head of its message.
    pub fn event(&self, level: Level, text: &str) -> (event: LogEvent)
        ensures
            event@ == tagged_event(self.request_id, level, text@),
    {
        let id_text = self.request_id.hyphenated();
        let mut message = String::from_str("request_id ");
        message.append(id_text.as_str());
        message.append(" - ");
        message.append(text);
        LogEvent { level, request_id: self.request_id, message }
    }
}

} // verus!
