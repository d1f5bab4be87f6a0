//! The protocol messages that travel between the client and the adapter.

use vstd::prelude::*;
use crate::capabilities::Capabilities;

verus! {

/// Arguments of the `initialize` request.
#[derive(Clone, Debug, PartialEq, Eq)]
pub struct InitializeRequestArguments {
    pub adapter_id: String,
    pub lines_start_at1: Option<bool>,
    pub columns_start_at1: Option<bool>,
    pub path_format: Option<String>,
}

/// Arguments of the `launch` request: the root file, the attribute to
/// evaluate, and the program to debug.
#[derive(Clone, Debug, PartialEq, Eq)]
pub struct ExtendedLaunchArguments {
    /// Root file of the project.
    pub manifest: Option<String>,
    /// Attribute selector inside the root file.
    pub expression: Option<String>,
    /// Path of the debuggee.
    pub program: String,
}

/// Arguments of the `setBreakpoints` request: the lines asked for in one
/// source, each counted from one.
#[derive(Clone, Debug, PartialEq, Eq)]
pub struct SetBreakpointsArguments {
    pub source: Option<String>,
    pub lines: Vec<usize>,
}

/// Arguments of the `evaluate` request.
#[derive(Clone, Debug, PartialEq, Eq)]
pub struct EvaluateArguments {
    pub expression: String,
}

/// A request, by command. Commands that the adapter does not serve are kept by
/// name only, and a request whose arguments cannot be read is kept by the
/// reason why.
#[derive(Clone, Debug, PartialEq, Eq)]
pub enum ExtendedRequestCommand {
    Initialize(InitializeRequestArguments),
    ConfigurationDone,
    Launch(ExtendedLaunchArguments),
    Disconnect,
    SetBreakpoints(SetBreakpointsArguments),
    Continue,
    Next,
    Evaluate(EvaluateArguments),
    /// A command that the adapter does not serve, by name.
    Other(String),
    /// A request whose arguments cannot be read, by the reason.
    Malformed(String),
}

/// What a successful response carries, by command.
#[derive(Clone, Debug, PartialEq, Eq)]
pub enum ResponseBody {
    Initialize(Capabilities),
    ConfigurationDone,
    Launch,
    Disconnect,
    /// The lines whose breakpoints were acknowledged, in request order.
    SetBreakpoints(Vec<usize>),
    Continue,
    Next,
    /// The rendering of the located value.
    Evaluate(String),
}

/// The answer to one request.
#[derive(Clone, Debug, PartialEq, Eq)]
pub struct Response {
    /// Sequence number of the request that is answered.
    pub request_seq: i64,
    pub success: bool,
    /// Human-readable reason of a failure.
    pub message: Option<String>,
    pub body: Option<ResponseBody>,
}

/// The events that the adapter emits.
#[derive(Clone, Copy, Debug, PartialEq, Eq, Structural)]
pub enum EventBody {
    Initialized,
    Terminated,
}

/// An event on the wire.
#[derive(Clone, Copy, Debug, PartialEq, Eq, Structural)]
pub struct Event {
    pub body: Option<EventBody>,
}

/// The three kinds of envelope.
#[derive(Clone, Debug, PartialEq, Eq)]
pub enum ExtendedMessageKind {
    Request(ExtendedRequestCommand),
    Response(Response),
    Event(Event),
}

/// An envelope: a sequence number and a message.
#[derive(Clone, Debug, PartialEq, Eq)]
pub struct ExtendedProtocolMessage {
    pub seq: i64,
    pub message: ExtendedMessageKind,
}

/// What the adapter can hand to the front-end for emission.
#[derive(Clone, Debug, PartialEq, Eq)]
pub enum Outgoing {
    Event(EventBody),
    Response(Response),
}

impl Outgoing {
    /// The kind of envelope that carries this emission.
    pub open spec fn kind(self) -> ExtendedMessageKind {
        match self {
            Outgoing::Event(body) => ExtendedMessageKind::Event(Event { body: Some(body) }),
            Outgoing::Response(response) => ExtendedMessageKind::Response(response),
        }
    }
}

impl Response {
    /// Whether this is the successful answer to request `request_seq` with
    /// the body `body` and no message.
    pub open spec fn is_success(self, request_seq: i64, body: ResponseBody) -> bool {
        &&& self.request_seq == request_seq
        &&& self.success
        &&& self.message is None
        &&& self.body == Some(body)
    }

    /// Whether this is the failed answer to request `request_seq` whose
    /// message reads `reason`, with no body.
    pub open spec fn is_failure(self, request_seq: i64, reason: Seq<char>) -> bool {
        &&& self.request_seq == request_seq
        &&& !self.success
        &&& self.message matches Some(text)
        &&& text@ == reason
        &&& self.body is None
    }

    /// A successful answer to request `request_seq`.
    pub fn success(request_seq: i64, body: ResponseBody) -> (r: Response)
        ensures
            r.is_success(request_seq, body),
    {
        Response { request_seq, success: true, message: None, body: Some(body) }
    }

    /// A failed answer to request `request_seq`, with a reason for the user.
    pub fn failure(request_seq: i64, reason: &str) -> (r: Response)
        ensures
            r.is_failure(request_seq, reason@),
    {
        Response { request_seq, success: false, message: Some(reason.to_owned()), body: None }
    }
}

impl ExtendedProtocolMessage {
    /// Whether the envelope is a request.
    pub fn is_request(&self) -> (r: bool)
        ensures
            r == (self.message is Request),
    {
        match &self.message {
            ExtendedMessageKind::Request(_) => true,
            _ => false,
        }
    }

    /// Whether the envelope carries the response `response` under sequence
    /// number `seq`.
    pub open spec fn carries_response(self, seq: int, response: Response) -> bool {
        self.seq == seq && self.message == ExtendedMessageKind::Response(response)
    }

    /// Whether the envelope carries the event `body` under sequence number
    /// `seq`.
    pub open spec fn carries_event(self, seq: int, body: EventBody) -> bool {
        self.seq == seq && self.message == ExtendedMessageKind::Event(Event { body: Some(body) })
    }
}

} // verus!
