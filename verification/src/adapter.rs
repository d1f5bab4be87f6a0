//! The debugger backend of the adapter: it turns requests into commands for
//! the debugger worker, turns the worker's replies into responses and events,
//! and drives the lifecycle.
//!
//! The adapter performs no input or output. Each entry point returns an
//! [`Outcome`]: what the caller is to do with the worker, and the envelopes to
//! write, in order. A request that needs the worker is answered in two parts:
//! [`NixDebugAdapter::handle_request`] forwards a command, and
//! [`NixDebugAdapter::handle_reply`] answers once the reply is in.
//!
//! Four choices are made here. An `evaluate` whose name is not found fails,
//! with the reason `variable not found`. A `configurationDone` is
//! acknowledged and has no effect on the worker. A `launch` does not look at
//! the program file: a program that cannot be opened shows when the observer
//! tries to open it, and the request then fails with `program terminated`.
//! A `disconnect` is accepted in every state: it walks the lifecycle forward
//! to `ShutDown`, one legal step at a time.

use vstd::prelude::*;
use crate::client::Client;
use crate::commands::{Breakpoint, Command, CommandReply};
use crate::lifecycle::State;
use crate::messages::{
    EventBody,
    ExtendedLaunchArguments,
    ExtendedMessageKind,
    ExtendedProtocolMessage,
    ExtendedRequestCommand,
    Outgoing,
    Response,
    ResponseBody,
    SetBreakpointsArguments,
};

verus! {

/// How many messages each of the two channels between the adapter and the
/// worker holds before a sender has to wait.
pub const CHANNEL_CAPACITY: usize = 32;

/// How long the worker is given to leave when it is joined, in milliseconds.
/// A worker that takes longer is abandoned.
pub const JOIN_TIMEOUT_MILLIS: u64 = 2000;

/// State of the debugging session beyond the protocol. Nothing is kept yet.
#[derive(Default, Debug, Clone, Copy, PartialEq, Eq, Structural)]
pub struct NixDebugState {}

/// What the adapter knows of its link to the debugger worker.
#[derive(Debug, Clone, Copy, PartialEq, Eq, Structural)]
pub struct Server {
    /// Whether the shutdown flag that the worker watches has been raised.
    pub shutdown: bool,
}

/// The request that waits for a reply of the worker.
#[derive(Debug, Clone, PartialEq, Eq)]
pub enum Pending {
    Initialize { seq: i64 },
    Launch { seq: i64 },
    /// Breakpoints are armed one by one: `acknowledged` of `lines` are done.
    SetBreakpoints { seq: i64, source: Option<String>, lines: Vec<usize>, acknowledged: usize },
    Continue { seq: i64 },
    Next { seq: i64 },
    Evaluate { seq: i64 },
    Disconnect { seq: i64 },
}

impl Pending {
    /// Sequence number of the request that waits.
    pub open spec fn seq(self) -> i64 {
        match self {
            Pending::Initialize { seq } => seq,
            Pending::Launch { seq } => seq,
            Pending::SetBreakpoints { seq, source, lines, acknowledged } => seq,
            Pending::Continue { seq } => seq,
            Pending::Next { seq } => seq,
            Pending::Evaluate { seq } => seq,
            Pending::Disconnect { seq } => seq,
        }
    }

    /// A breakpoint exchange always has a line left to acknowledge.
    pub open spec fn wf(self) -> bool {
        self matches Pending::SetBreakpoints { seq, source, lines, acknowledged } ==> acknowledged
            < lines@.len()
    }

    /// How many lines a breakpoint exchange has yet to see acknowledged;
    /// zero for every other request.
    pub open spec fn lines_left(self) -> int {
        match self {
            Pending::SetBreakpoints { seq, source, lines, acknowledged } => lines@.len()
                - acknowledged,
            _ => 0,
        }
    }

    /// Whether `reply` acknowledges a line of a breakpoint exchange that has
    /// lines left.
    pub open spec fn continues(self, reply: CommandReply) -> bool {
        &&& self matches Pending::SetBreakpoints { seq, source, lines, acknowledged }
        &&& reply is BreakReply
        &&& acknowledged + 1 < lines@.len()
    }

    /// The breakpoint that a breakpoint exchange arms next.
    pub open spec fn following(self) -> Breakpoint {
        breakpoint_at(self->source, self->lines@[self->acknowledged + 1])
    }

    /// The breakpoint exchange with one more line acknowledged.
    pub open spec fn advanced(self) -> Pending {
        Pending::SetBreakpoints {
            seq: self.seq(),
            source: self->source,
            lines: self->lines,
            acknowledged: (self->acknowledged + 1) as usize,
        }
    }

    /// The body of the response that `reply` settles the request with.
    pub open spec fn settled(self, reply: CommandReply) -> ResponseBody {
        match self {
            Pending::Initialize { seq } => ResponseBody::Initialize(reply->InitializeReply_0),
            Pending::Launch { seq } => ResponseBody::Launch,
            Pending::SetBreakpoints { seq, source, lines, acknowledged } => ResponseBody::SetBreakpoints(
                lines,
            ),
            Pending::Continue { seq } => ResponseBody::Continue,
            Pending::Next { seq } => ResponseBody::Next,
            Pending::Evaluate { seq } => ResponseBody::Evaluate(reply->PrintReply_0->Some_0),
            Pending::Disconnect { seq } => ResponseBody::Disconnect,
        }
    }

    /// The reply that settles the request with success.
    pub open spec fn accepts(self, reply: CommandReply) -> bool {
        match self {
            Pending::Initialize { seq } => reply is InitializeReply,
            Pending::Launch { seq } => reply is LaunchReply,
            Pending::SetBreakpoints { seq, source, lines, acknowledged } => reply is BreakReply,
            Pending::Continue { seq } => reply is ContinueReply,
            Pending::Next { seq } => reply is StepReply,
            Pending::Evaluate { seq } => reply matches CommandReply::PrintReply(Some(_)),
            Pending::Disconnect { seq } => true,
        }
    }
}

/// The breakpoint that a request for `line` in `source` asks for.
pub open spec fn breakpoint_at(source: Option<String>, line: usize) -> Breakpoint {
    match source {
        Some(file) => Breakpoint::FileLine { file, line },
        None => Breakpoint::Line(line),
    }
}

/// Why a reply that does not settle a request makes the request fail.
pub open spec fn refusal(reply: CommandReply) -> Seq<char> {
    match reply {
        CommandReply::NotReady => "program not ready"@,
        CommandReply::Terminated => "program terminated"@,
        CommandReply::PrintReply(None) => "variable not found"@,
        _ => "unexpected reply"@,
    }
}

/// What the caller is to do after an entry point has returned. The steps are
/// taken in the order of the fields.
#[derive(Debug, Clone, PartialEq, Eq)]
pub struct Outcome {
    /// Start the debugger worker and open the two channels to it.
    pub spawn: bool,
    /// Raise the shutdown flag that the worker watches.
    pub raise_shutdown: bool,
    /// Send this command to the worker. A reply is then awaited.
    pub forward: Option<Command>,
    /// Join the worker, within the time allowed for it.
    pub join: bool,
    /// Write these envelopes to the client, in order.
    pub messages: Vec<ExtendedProtocolMessage>,
}

impl Outcome {
    /// Whether nothing is asked of the worker.
    pub open spec fn is_quiet(self) -> bool {
        !self.spawn && !self.raise_shutdown && self.forward is None && !self.join
    }

    /// Whether the first envelope is numbered `number` and carries a
    /// successful response to request `request_seq` with body `body`.
    pub open spec fn leads_with(self, number: int, request_seq: i64, body: ResponseBody) -> bool {
        &&& self.messages@.len() >= 1
        &&& self.messages@[0].seq == number
        &&& self.messages@[0].message matches ExtendedMessageKind::Response(r)
        &&& r.is_success(request_seq, body)
    }

    /// Whether the outcome is one envelope, numbered `number`, that carries a
    /// successful response to request `request_seq` with body `body`.
    pub open spec fn answers(self, number: int, request_seq: i64, body: ResponseBody) -> bool {
        &&& self.messages@.len() == 1
        &&& self.messages@[0].seq == number
        &&& self.messages@[0].message matches ExtendedMessageKind::Response(r)
        &&& r.is_success(request_seq, body)
    }

    /// Whether the outcome is one envelope, numbered `number`, that carries a
    /// failed response to request `request_seq` with the reason `reason`.
    pub open spec fn fails(self, number: int, request_seq: i64, reason: Seq<char>) -> bool {
        &&& self.messages@.len() == 1
        &&& self.messages@[0].seq == number
        &&& self.messages@[0].message matches ExtendedMessageKind::Response(r)
        &&& r.is_failure(request_seq, reason)
    }

    /// Whether the first envelope is a response to request `request_seq`.
    pub open spec fn answers_to(self, request_seq: i64) -> bool {
        &&& self.messages@.len() >= 1
        &&& self.messages@[0].message matches ExtendedMessageKind::Response(r)
        &&& r.request_seq == request_seq
    }

    /// Whether every response among the envelopes answers a request whose
    /// sequence number is in `seen`.
    pub open spec fn answers_only(self, seen: Set<i64>) -> bool {
        forall|i: int|
            0 <= i < self.messages@.len() ==> (
            #[trigger] self.messages@[i].message matches ExtendedMessageKind::Response(
                r,
            ) ==> seen.contains(r.request_seq))
    }

    /// Whether the envelopes are numbered `first`, `first + 1`, ... in order.
    pub open spec fn numbered_from(self, first: int) -> bool {
        forall|i: int| 0 <= i < self.messages@.len() ==> (#[trigger] self.messages@[i]).seq == first + i
    }
}

/// The adapter: the front-end, the session state, and the link to the worker.
pub struct NixDebugAdapter {
    /// The protocol front-end.
    pub client: Client,
    /// The session state.
    pub state: NixDebugState,
    /// The link to the worker, once one has been started.
    pub server: Option<Server>,
    /// The request that waits for a reply of the worker, if one does.
    pub pending: Option<Pending>,
    /// How many commands have gone to the worker over the present link.
    pub sent: Ghost<nat>,
    /// How many replies have come from the worker over the present link.
    pub received: Ghost<nat>,
    /// The sequence numbers of the requests received so far.
    pub seen: Ghost<Set<i64>>,
}

impl NixDebugAdapter {
    /// The request that waits for a reply of the worker, if one does.
    pub open spec fn awaited(&self) -> Option<Pending> {
        self.pending
    }

    /// How many commands have gone to the worker over the present link.
    pub open spec fn sent(&self) -> nat {
        self.sent@
    }

    /// How many replies have come from the worker over the present link.
    pub open spec fn received(&self) -> nat {
        self.received@
    }

    /// The sequence numbers of the requests received so far.
    pub open spec fn seen(&self) -> Set<i64> {
        self.seen@
    }

    /// Whether the adapter still serves requests.
    pub open spec fn is_live(&self) -> bool {
        self.client.state.rank() < State::ShutDown.rank()
    }

    /// Whether the adapter waits for a reply on behalf of request `seq`.
    pub open spec fn waits_for(&self, seq: i64) -> bool {
        self.awaited() matches Some(pending) && pending.seq() == seq
    }

    /// Whether no exchange with the worker is under way.
    pub open spec fn is_quiescent(&self) -> bool {
        self.awaited() is None
    }

    /// The invariant of the adapter. At rest every command has had its reply;
    /// during an exchange exactly one reply is outstanding, and the request
    /// that waits for it has been received.
    pub open spec fn wf(&self) -> bool {
        &&& self.awaited() is None ==> self.sent() == self.received()
        &&& self.awaited() matches Some(pending) ==> {
            &&& self.sent() == self.received() + 1
            &&& self.seen().contains(pending.seq())
            &&& self.server is Some
            &&& pending.wf()
        }
    }

    /// Whether the two adapters agree in everything but the numbering of
    /// emissions and the record of requests received.
    pub open spec fn same_session(&self, other: &NixDebugAdapter) -> bool {
        &&& self.client.state == other.client.state
        &&& self.state == other.state
        &&& self.server == other.server
        &&& self.awaited() == other.awaited()
        &&& self.sent() == other.sent()
        &&& self.received() == other.received()
    }

    /// Whether `out` forwards `command` and nothing else, and `self` is `pre`
    /// waiting with `pending` for the reply.
    pub open spec fn asks(&self, pre: &NixDebugAdapter, out: Outcome, command: Command, pending: Pending) -> bool {
        &&& out.forward == Some(command)
        &&& !out.raise_shutdown
        &&& !out.join
        &&& out.messages@.len() == 0
        &&& self.client == pre.client
        &&& self.awaited() == Some(pending)
        &&& self.sent() == pre.sent() + 1
        &&& self.received() == pre.received()
    }

    /// Whether `out` is a single response and `self` is `pre` after emitting
    /// it.
    pub open spec fn replied(&self, pre: &NixDebugAdapter, out: Outcome) -> bool {
        &&& out.is_quiet()
        &&& out.messages@.len() == 1
        &&& self.client == pre.client.advanced()
        &&& self.server == pre.server
        &&& self.awaited() == pre.awaited()
        &&& self.sent() == pre.sent()
        &&& self.received() == pre.received()
    }

    /// An adapter on a connection on which nothing has happened yet.
    pub fn new() -> (adapter: NixDebugAdapter)
        ensures
            adapter.wf(),
            adapter.client == Client::fresh(),
            adapter.server is None,
            adapter.is_quiescent(),
            adapter.sent() == 0,
            adapter.received() == 0,
            adapter.seen() == Set::<i64>::empty(),
    {
        NixDebugAdapter {
            client: Client::new(),
            state: NixDebugState {  },
            server: None,
            pending: None,
            sent: Ghost(0),
            received: Ghost(0),
            seen: Ghost(Set::empty()),
        }
    }

    /// Whether a reply of the worker is awaited.
    pub fn awaiting(&self) -> (r: bool)
        ensures
            r == !self.is_quiescent(),
    {
        self.pending.is_some()
    }

    /// Emits one response.
    fn respond(&mut self, response: Response) -> (out: Outcome)
        requires
            old(self).client.can_send(1),
        ensures
            final(self).replied(old(self), out),
            final(self).state == old(self).state,
            final(self).seen() == old(self).seen(),
            out.messages@[0] == old(self).client.stamped(Outgoing::Response(response)),
    {
        let envelope = self.client.send(Outgoing::Response(response));
        let mut messages: Vec<ExtendedProtocolMessage> = Vec::new();
        messages.push(envelope);
        Outcome { spawn: false, raise_shutdown: false, forward: None, join: false, messages }
    }

    /// Forwards one command and waits with `pending` for the reply.
    fn ask(&mut self, command: Command, pending: Pending) -> (out: Outcome)
        requires
            old(self).awaited() is None,
        ensures
            final(self).asks(old(self), out, command, pending),
            !out.spawn,
            final(self).state == old(self).state,
            final(self).server == old(self).server,
            final(self).seen() == old(self).seen(),
    {
        self.pending = Some(pending);
        self.sent = Ghost(self.sent@ + 1);
        Outcome {
            spawn: false,
            raise_shutdown: false,
            forward: Some(command),
            join: false,
            messages: Vec::new(),
        }
    }

    /// The lifecycle after the two transitions of a completed handshake.
    pub open spec fn initialized(state: State) -> State {
        state.advance(State::Initializing).advance(State::Initialized)
    }

    /// What a request does to a live adapter that has a worker where the
    /// request needs one: `out` and `self` against `pre`.
    pub open spec fn served(
        &self,
        pre: &NixDebugAdapter,
        seq: i64,
        command: ExtendedRequestCommand,
        out: Outcome,
    ) -> bool {
        let number = pre.client.send_seq as int;
        match command {
            ExtendedRequestCommand::Initialize(_) => {
                &&& self.asks(pre, out, Command::Initialize, Pending::Initialize { seq })
                &&& out.spawn == (pre.server is None)
                &&& self.server == Some(
                    match pre.server {
                        Some(server) => server,
                        None => Server { shutdown: false },
                    },
                )
            },
            ExtendedRequestCommand::ConfigurationDone => {
                &&& self.replied(pre, out)
                &&& out.answers(number, seq, ResponseBody::ConfigurationDone)
            },
            ExtendedRequestCommand::Launch(args) => if args.manifest is None {
                self.replied(pre, out) && out.fails(number, seq, "Root file must be specified"@)
            } else if args.expression is None {
                self.replied(pre, out) && out.fails(number, seq, "Attribute must be specified"@)
            } else if pre.server is None {
                self.replied(pre, out) && out.fails(number, seq, "adapter not initialized"@)
            } else {
                &&& self.asks(pre, out, Command::Launch(args.program), Pending::Launch { seq })
                &&& !out.spawn
                &&& self.server == pre.server
            },
            ExtendedRequestCommand::SetBreakpoints(args) => if pre.server is None {
                self.replied(pre, out) && out.fails(number, seq, "adapter not initialized"@)
            } else if args.lines@.len() == 0 {
                &&& self.replied(pre, out)
                &&& out.answers(number, seq, ResponseBody::SetBreakpoints(args.lines))
            } else {
                &&& self.asks(
                    pre,
                    out,
                    Command::Break(breakpoint_at(args.source, args.lines@[0])),
                    Pending::SetBreakpoints {
                        seq,
                        source: args.source,
                        lines: args.lines,
                        acknowledged: 0,
                    },
                )
                &&& !out.spawn
                &&& self.server == pre.server
            },
            ExtendedRequestCommand::Continue => if pre.server is None {
                self.replied(pre, out) && out.fails(number, seq, "adapter not initialized"@)
            } else {
                &&& self.asks(pre, out, Command::Continue, Pending::Continue { seq })
                &&& !out.spawn
                &&& self.server == pre.server
            },
            ExtendedRequestCommand::Next => if pre.server is None {
                self.replied(pre, out) && out.fails(number, seq, "adapter not initialized"@)
            } else {
                &&& self.asks(pre, out, Command::Step, Pending::Next { seq })
                &&& !out.spawn
                &&& self.server == pre.server
            },
            ExtendedRequestCommand::Evaluate(args) => if pre.server is None {
                self.replied(pre, out) && out.fails(number, seq, "adapter not initialized"@)
            } else {
                &&& self.asks(pre, out, Command::Print(args.expression), Pending::Evaluate { seq })
                &&& !out.spawn
                &&& self.server == pre.server
            },
            ExtendedRequestCommand::Disconnect => {
                &&& !out.spawn
                &&& !out.join
                &&& self.client.state == State::ShutDown
                &&& self.received() == pre.received()
                &&& if pre.server matches Some(server) && !server.shutdown {
                    &&& out.raise_shutdown
                    &&& out.forward == Some(Command::Exit)
                    &&& out.messages@.len() == 0
                    &&& self.client.send_seq == pre.client.send_seq
                    &&& self.server == Some(Server { shutdown: true })
                    &&& self.awaited() == Some(Pending::Disconnect { seq })
                    &&& self.sent() == pre.sent() + 1
                } else {
                    &&& !out.raise_shutdown
                    &&& out.forward is None
                    &&& out.answers(number, seq, ResponseBody::Disconnect)
                    &&& self.client.send_seq == pre.client.send_seq + 1
                    &&& self.server == pre.server
                    &&& self.awaited() == pre.awaited()
                    &&& self.sent() == pre.sent()
                }
            },
            ExtendedRequestCommand::Other(_) => {
                &&& self.replied(pre, out)
                &&& out.fails(number, seq, "unsupported request"@)
            },
            ExtendedRequestCommand::Malformed(reason) => {
                &&& self.replied(pre, out)
                &&& out.fails(number, seq, reason@)
            },
        }
    }

    /// What a request does: `out` and `self` against `pre`. An adapter that
    /// has been shut down confirms a `disconnect` and refuses everything else;
    /// a live one serves the request.
    pub open spec fn after_request(
        &self,
        pre: &NixDebugAdapter,
        seq: i64,
        command: ExtendedRequestCommand,
        out: Outcome,
    ) -> bool {
        &&& self.state == pre.state
        &&& self.seen() == pre.seen().insert(seq)
        &&& if pre.is_live() {
            self.served(pre, seq, command, out)
        } else {
            &&& self.replied(pre, out)
            &&& if command is Disconnect {
                out.answers(pre.client.send_seq as int, seq, ResponseBody::Disconnect)
            } else {
                out.fails(pre.client.send_seq as int, seq, "adapter shut down"@)
            }
        }
    }

    /// The breakpoint that a request for `line` in `source` asks for.
    fn breakpoint_for(source: &Option<String>, line: usize) -> (breakpoint: Breakpoint)
        ensures
            breakpoint == breakpoint_at(*source, line),
    {
        match source {
            Some(file) => Breakpoint::FileLine { file: file.clone(), line },
            None => Breakpoint::Line(line),
        }
    }

    /// Handles `initialize`: starts the worker if there is none, and asks it
    /// for its capabilities.
    fn handle_initialize(&mut self, seq: i64) -> (out: Outcome)
        requires
            old(self).awaited() is None,
        ensures
            final(self).asks(old(self), out, Command::Initialize, Pending::Initialize { seq }),
            out.spawn == (old(self).server is None),
            final(self).server == Some(
                match old(self).server {
                    Some(server) => server,
                    None => Server { shutdown: false },
                },
            ),
            final(self).state == old(self).state,
            final(self).seen() == old(self).seen(),
    {
        let spawn = self.server.is_none();
        if spawn {
            self.server = Some(Server { shutdown: false });
        }
        let mut out = self.ask(Command::Initialize, Pending::Initialize { seq });
        out.spawn = spawn;
        out
    }

    /// Handles `configurationDone`: acknowledges.
    fn handle_configuration_done(&mut self, seq: i64) -> (out: Outcome)
        requires
            old(self).client.can_send(1),
        ensures
            final(self).replied(old(self), out),
            out.answers(old(self).client.send_seq as int, seq, ResponseBody::ConfigurationDone),
            final(self).state == old(self).state,
            final(self).seen() == old(self).seen(),
    {
        self.respond(Response::success(seq, ResponseBody::ConfigurationDone))
    }

    /// Refuses request `seq` for the reason `reason`.
    fn refuse(&mut self, seq: i64, reason: &str) -> (out: Outcome)
        requires
            old(self).client.can_send(1),
        ensures
            final(self).replied(old(self), out),
            out.fails(old(self).client.send_seq as int, seq, reason@),
            final(self).state == old(self).state,
            final(self).seen() == old(self).seen(),
    {
        self.respond(Response::failure(seq, reason))
    }

    /// Handles `launch`: checks that the root file and the attribute are
    /// named, then asks the worker to launch the program.
    fn handle_launch(&mut self, seq: i64, args: ExtendedLaunchArguments) -> (out: Outcome)
        requires
            old(self).client.can_send(1),
            old(self).awaited() is None,
            old(self).is_live(),
        ensures
            final(self).served(old(self), seq, ExtendedRequestCommand::Launch(args), out),
            final(self).state == old(self).state,
            final(self).seen() == old(self).seen(),
    {
        if args.manifest.is_none() {
            return self.refuse(seq, "Root file must be specified");
        }
        if args.expression.is_none() {
            return self.refuse(seq, "Attribute must be specified");
        }
        if self.server.is_none() {
            return self.refuse(seq, "adapter not initialized");
        }
        self.ask(Command::Launch(args.program), Pending::Launch { seq })
    }

    /// Handles `setBreakpoints`: asks the worker to arm the first line; the
    /// others follow as the replies come in.
    fn handle_set_breakpoints(&mut self, seq: i64, args: SetBreakpointsArguments) -> (out: Outcome)
        requires
            old(self).client.can_send(1),
            old(self).awaited() is None,
            old(self).is_live(),
        ensures
            final(self).served(old(self), seq, ExtendedRequestCommand::SetBreakpoints(args), out),
            final(self).state == old(self).state,
            final(self).seen() == old(self).seen(),
    {
        if self.server.is_none() {
            return self.refuse(seq, "adapter not initialized");
        }
        if args.lines.len() == 0 {
            return self.respond(Response::success(seq, ResponseBody::SetBreakpoints(args.lines)));
        }
        let first = Self::breakpoint_for(&args.source, args.lines[0]);
        self.ask(
            Command::Break(first),
            Pending::SetBreakpoints {
                seq,
                source: args.source,
                lines: args.lines,
                acknowledged: 0,
            },
        )
    }

    /// Handles a request that is one command to the worker.
    fn handle_forward(&mut self, seq: i64, command: Command, pending: Pending) -> (out: Outcome)
        requires
            old(self).client.can_send(1),
            old(self).awaited() is None,
        ensures
            old(self).server is None ==> final(self).replied(old(self), out) && out.fails(
                old(self).client.send_seq as int,
                seq,
                "adapter not initialized"@,
            ),
            old(self).server is Some ==> final(self).asks(old(self), out, command, pending)
                && !out.spawn && final(self).server == old(self).server,
            final(self).state == old(self).state,
            final(self).seen() == old(self).seen(),
    {
        if self.server.is_none() {
            return self.refuse(seq, "adapter not initialized");
        }
        self.ask(command, pending)
    }

    /// Handles `disconnect` on a live adapter: shuts the lifecycle down and,
    /// where a worker runs, tells it to leave.
    fn handle_disconnect(&mut self, seq: i64) -> (out: Outcome)
        requires
            old(self).client.can_send(1),
            old(self).awaited() is None,
            old(self).is_live(),
        ensures
            final(self).served(old(self), seq, ExtendedRequestCommand::Disconnect, out),
            final(self).state == old(self).state,
            final(self).seen() == old(self).seen(),
    {
        self.client.shut_down();
        let running = match &self.server {
            Some(server) => !server.shutdown,
            None => false,
        };
        if running {
            self.server = Some(Server { shutdown: true });
            let mut out = self.ask(Command::Exit, Pending::Disconnect { seq });
            out.raise_shutdown = true;
            out
        } else {
            self.respond(Response::success(seq, ResponseBody::Disconnect))
        }
    }

    /// Handles one request. The adapter must be at rest: requests are taken
    /// one after the other, each after the exchange of the one before it.
    pub fn handle_request(&mut self, seq: i64, command: ExtendedRequestCommand) -> (out: Outcome)
        requires
            old(self).wf(),
            old(self).is_quiescent(),
            old(self).client.can_send(1),
        ensures
            final(self).wf(),
            final(self).after_request(old(self), seq, command, out),
    {
        self.seen = Ghost(self.seen@.insert(seq));
        if !self.client.get_state().is_live() {
            return match command {
                ExtendedRequestCommand::Disconnect => self.respond(
                    Response::success(seq, ResponseBody::Disconnect),
                ),
                _ => self.refuse(seq, "adapter shut down"),
            };
        }
        match command {
            ExtendedRequestCommand::Initialize(_) => self.handle_initialize(seq),
            ExtendedRequestCommand::ConfigurationDone => self.handle_configuration_done(seq),
            ExtendedRequestCommand::Launch(args) => self.handle_launch(seq, args),
            ExtendedRequestCommand::Disconnect => self.handle_disconnect(seq),
            ExtendedRequestCommand::SetBreakpoints(args) => self.handle_set_breakpoints(seq, args),
            ExtendedRequestCommand::Continue => self.handle_forward(
                seq,
                Command::Continue,
                Pending::Continue { seq },
            ),
            ExtendedRequestCommand::Next => self.handle_forward(
                seq,
                Command::Step,
                Pending::Next { seq },
            ),
            ExtendedRequestCommand::Evaluate(args) => self.handle_forward(
                seq,
                Command::Print(args.expression),
                Pending::Evaluate { seq },
            ),
            ExtendedRequestCommand::Other(_) => self.refuse(seq, "unsupported request"),
            ExtendedRequestCommand::Malformed(reason) => self.refuse(seq, reason.as_str()),
        }
    }

    /// What an inbound envelope does: `out` and `self` against `pre`. A
    /// request is handled. A response or an event from the client is a
    /// violation of the protocol: it is dropped, and nothing changes.
    pub open spec fn after_message(
        &self,
        pre: &NixDebugAdapter,
        message: ExtendedProtocolMessage,
        out: Outcome,
    ) -> bool {
        match message.message {
            ExtendedMessageKind::Request(command) => self.after_request(
                pre,
                message.seq,
                command,
                out,
            ),
            _ => {
                &&& self.same_session(pre)
                &&& self.client == pre.client
                &&& self.seen() == pre.seen()
                &&& out.is_quiet()
                &&& out.messages@.len() == 0
            },
        }
    }

    /// Handles one inbound envelope. As with a request, the adapter must be
    /// at rest.
    pub fn handle_message(&mut self, message: ExtendedProtocolMessage) -> (out: Outcome)
        requires
            old(self).wf(),
            old(self).is_quiescent(),
            old(self).client.can_send(1),
        ensures
            final(self).wf(),
            final(self).after_message(old(self), message, out),
    {
        match message.message {
            ExtendedMessageKind::Request(command) => self.handle_request(message.seq, command),
            _ => Outcome {
                spawn: false,
                raise_shutdown: false,
                forward: None,
                join: false,
                messages: Vec::new(),
            },
        }
    }

    /// Whether the adapter goes on reading: it has not been shut down.
    pub fn is_running(&self) -> (running: bool)
        ensures
            running == self.is_live(),
    {
        self.client.get_state().is_live()
    }

    /// Why `reply` does not settle a request.
    fn reason_of(reply: &CommandReply) -> (reason: &'static str)
        ensures
            reason@ == refusal(*reply),
    {
        match reply {
            CommandReply::NotReady => "program not ready",
            CommandReply::Terminated => "program terminated",
            CommandReply::PrintReply(None) => "variable not found",
            _ => "unexpected reply",
        }
    }

    /// What a reply does: `out` and `self` against `pre`. A reply that nothing
    /// waits for is dropped. A reply that settles the waiting request yields
    /// its response, a reply that does not yields a failure; a breakpoint
    /// exchange with lines left goes on with the next line instead.
    pub open spec fn after_reply(&self, pre: &NixDebugAdapter, reply: CommandReply, out: Outcome) -> bool {
        let number = pre.client.send_seq as int;
        &&& self.state == pre.state
        &&& self.seen() == pre.seen()
        &&& self.server == pre.server
        &&& !out.spawn
        &&& !out.raise_shutdown
        &&& match pre.awaited() {
            None => {
                &&& self.same_session(pre)
                &&& self.client == pre.client
                &&& out.is_quiet()
                &&& out.messages@.len() == 0
            },
            Some(pending) => {
                &&& self.received() == pre.received() + 1
                &&& if pending.continues(reply) {
                    &&& out.forward == Some(Command::Break(pending.following()))
                    &&& !out.join
                    &&& out.messages@.len() == 0
                    &&& self.client == pre.client
                    &&& self.awaited() == Some(pending.advanced())
                    &&& self.sent() == pre.sent() + 1
                } else {
                    &&& out.forward is None
                    &&& out.join == (pending is Disconnect)
                    &&& self.awaited() is None
                    &&& self.sent() == pre.sent()
                    &&& self.client.send_seq == number + out.messages@.len()
                    &&& if pending is Initialize && reply is InitializeReply {
                        &&& self.client.state == Self::initialized(pre.client.state)
                        &&& out.messages@.len() == 2
                        &&& out.leads_with(number, pending.seq(), pending.settled(reply))
                        &&& out.messages@[1].carries_event(number + 1, EventBody::Initialized)
                    } else {
                        &&& self.client.state == pre.client.state
                        &&& if pending.accepts(reply) {
                            out.answers(number, pending.seq(), pending.settled(reply))
                        } else {
                            out.fails(number, pending.seq(), refusal(reply))
                        }
                    }
                }
            },
        }
    }

    /// Completes the handshake: the response with the capabilities, then the
    /// `initialized` event, with the two lifecycle transitions around the
    /// response.
    fn finish_initialize(&mut self, seq: i64, capabilities: crate::capabilities::Capabilities) -> (out:
        Outcome)
        requires
            old(self).client.can_send(2),
        ensures
            out.is_quiet(),
            out.messages@.len() == 2,
            out.leads_with(
                old(self).client.send_seq as int,
                seq,
                ResponseBody::Initialize(capabilities),
            ),
            out.messages@[1].carries_event(old(self).client.send_seq + 1, EventBody::Initialized),
            final(self).client.send_seq == old(self).client.send_seq + 2,
            final(self).client.state == Self::initialized(old(self).client.state),
            final(self).state == old(self).state,
            final(self).server == old(self).server,
            final(self).awaited() == old(self).awaited(),
            final(self).sent() == old(self).sent(),
            final(self).received() == old(self).received(),
            final(self).seen() == old(self).seen(),
    {
        self.client.set_state(State::Initializing);
        let response = self.client.send(
            Outgoing::Response(Response::success(seq, ResponseBody::Initialize(capabilities))),
        );
        self.client.set_state(State::Initialized);
        let event = self.client.send(Outgoing::Event(EventBody::Initialized));
        let mut messages: Vec<ExtendedProtocolMessage> = Vec::new();
        messages.push(response);
        messages.push(event);
        Outcome { spawn: false, raise_shutdown: false, forward: None, join: false, messages }
    }

    /// Handles one reply of the worker.
    pub fn handle_reply(&mut self, reply: CommandReply) -> (out: Outcome)
        requires
            old(self).wf(),
            old(self).client.can_send(2),
        ensures
            final(self).wf(),
            final(self).after_reply(old(self), reply, out),
    {
        let pending = match self.pending.take() {
            Some(pending) => pending,
            None => {
                return Outcome {
                    spawn: false,
                    raise_shutdown: false,
                    forward: None,
                    join: false,
                    messages: Vec::new(),
                };
            },
        };
        self.received = Ghost(self.received@ + 1);
        match pending {
            Pending::Initialize { seq } => match reply {
                CommandReply::InitializeReply(capabilities) => self.finish_initialize(
                    seq,
                    capabilities,
                ),
                other => self.refuse(seq, Self::reason_of(&other)),
            },
            Pending::Launch { seq } => match reply {
                CommandReply::LaunchReply => self.respond(
                    Response::success(seq, ResponseBody::Launch),
                ),
                other => self.refuse(seq, Self::reason_of(&other)),
            },
            Pending::SetBreakpoints { seq, source, lines, acknowledged } => match reply {
                CommandReply::BreakReply => {
                    let count: usize = lines.len();
                    let next: usize = acknowledged + 1;
                    if next < count {
                        let following = Self::breakpoint_for(&source, lines[next]);
                        self.ask(
                            Command::Break(following),
                            Pending::SetBreakpoints { seq, source, lines, acknowledged: next },
                        )
                    } else {
                        self.respond(Response::success(seq, ResponseBody::SetBreakpoints(lines)))
                    }
                },
                other => self.refuse(seq, Self::reason_of(&other)),
            },
            Pending::Continue { seq } => match reply {
                CommandReply::ContinueReply => self.respond(
                    Response::success(seq, ResponseBody::Continue),
                ),
                other => self.refuse(seq, Self::reason_of(&other)),
            },
            Pending::Next { seq } => match reply {
                CommandReply::StepReply => self.respond(Response::success(seq, ResponseBody::Next)),
                other => self.refuse(seq, Self::reason_of(&other)),
            },
            Pending::Evaluate { seq } => match reply {
                CommandReply::PrintReply(Some(text)) => self.respond(
                    Response::success(seq, ResponseBody::Evaluate(text)),
                ),
                other => self.refuse(seq, Self::reason_of(&other)),
            },
            Pending::Disconnect { seq } => {
                let mut out = self.respond(Response::success(seq, ResponseBody::Disconnect));
                out.join = true;
                out
            },
        }
    }

    /// What the loss of the worker does: `out` and `self` against `pre`.
    /// The lifecycle is shut down and the link is given up; a request that
    /// waited is answered, a `disconnect` with success and any other with a
    /// failure.
    pub open spec fn after_loss(&self, pre: &NixDebugAdapter, out: Outcome) -> bool {
        let number = pre.client.send_seq as int;
        &&& self.state == pre.state
        &&& self.seen() == pre.seen()
        &&& self.client.state == pre.client.state.halted()
        &&& self.server is None
        &&& self.awaited() is None
        &&& self.sent() == 0
        &&& self.received() == 0
        &&& !out.spawn
        &&& !out.raise_shutdown
        &&& out.forward is None
        &&& out.join == (pre.server is Some)
        &&& self.client.send_seq == number + out.messages@.len()
        &&& match pre.awaited() {
            None => out.messages@.len() == 0,
            Some(pending) => if pending is Disconnect {
                out.answers(number, pending.seq(), ResponseBody::Disconnect)
            } else {
                out.fails(number, pending.seq(), "debugger unavailable"@)
            },
        }
    }

    /// Handles the loss of the worker: its channel has closed, or its thread
    /// has died.
    pub fn handle_loss(&mut self) -> (out: Outcome)
        requires
            old(self).wf(),
            old(self).client.can_send(1),
        ensures
            final(self).wf(),
            final(self).after_loss(old(self), out),
    {
        self.client.shut_down();
        let join = self.server.is_some();
        self.server = None;
        self.sent = Ghost(0);
        self.received = Ghost(0);
        let mut out = match self.pending.take() {
            None => Outcome {
                spawn: false,
                raise_shutdown: false,
                forward: None,
                join: false,
                messages: Vec::new(),
            },
            Some(Pending::Disconnect { seq }) => self.respond(
                Response::success(seq, ResponseBody::Disconnect),
            ),
            Some(Pending::Initialize { seq }) => self.refuse(seq, "debugger unavailable"),
            Some(Pending::Launch { seq }) => self.refuse(seq, "debugger unavailable"),
            Some(Pending::SetBreakpoints { seq, source: _, lines: _, acknowledged: _ }) => self.refuse(
                seq,
                "debugger unavailable",
            ),
            Some(Pending::Continue { seq }) => self.refuse(seq, "debugger unavailable"),
            Some(Pending::Next { seq }) => self.refuse(seq, "debugger unavailable"),
            Some(Pending::Evaluate { seq }) => self.refuse(seq, "debugger unavailable"),
        };
        out.join = join;
        out
    }
}

/// Numbering. The envelopes of an outcome are numbered upward from the
/// counter of the front-end, without a gap, and the counter ends one above
/// the last of them: each envelope is numbered one above the one before it.
pub proof fn lemma_envelopes_are_numbered_in_order(
    pre: NixDebugAdapter,
    post: NixDebugAdapter,
    seq: i64,
    command: ExtendedRequestCommand,
    reply: CommandReply,
    out: Outcome,
)
    requires
        pre.client.can_send(2),
        post.after_request(&pre, seq, command, out) || post.after_reply(&pre, reply, out)
            || post.after_loss(&pre, out),
    ensures
        out.numbered_from(pre.client.send_seq as int),
        post.client.send_seq == pre.client.send_seq + out.messages@.len(),
{
}

/// Every response answers a request that has been received: its
/// `request_seq` is the sequence number of the request just handled, or of
/// the request that waited for the reply.
pub proof fn lemma_responses_answer_received_requests(
    pre: NixDebugAdapter,
    post: NixDebugAdapter,
    seq: i64,
    command: ExtendedRequestCommand,
    reply: CommandReply,
    out: Outcome,
)
    requires
        pre.wf(),
        post.after_request(&pre, seq, command, out) || post.after_reply(&pre, reply, out)
            || post.after_loss(&pre, out),
    ensures
        out.answers_only(post.seen()),
        pre.seen().subset_of(post.seen()),
{
}

/// No request stays without an answer. A request is answered at once, or
/// the adapter waits for a reply on its behalf; and a reply either yields
/// the answer to the request that waited, or, in a breakpoint exchange with
/// lines left, leaves the adapter waiting for the same request with one line
/// fewer to go.
pub proof fn lemma_every_request_is_answered(
    pre: NixDebugAdapter,
    post: NixDebugAdapter,
    seq: i64,
    command: ExtendedRequestCommand,
    reply: CommandReply,
    out: Outcome,
)
    requires
        pre.wf(),
    ensures
        post.after_request(&pre, seq, command, out) ==> {
            ||| out.answers_to(seq)
            ||| out.messages@.len() == 0 && out.forward is Some && post.waits_for(seq)
        },
        post.after_reply(&pre, reply, out) ==> (pre.awaited() matches Some(waiting) ==> {
            ||| out.answers_to(waiting.seq())
            ||| out.messages@.len() == 0 && out.forward is Some && post.waits_for(waiting.seq())
                && post.awaited()->0.lines_left() < waiting.lines_left()
        }),
        post.after_loss(&pre, out) ==> (pre.awaited() matches Some(waiting) ==> out.answers_to(
            waiting.seq(),
        )),
{
    if let Some(Pending::SetBreakpoints { seq, source, lines, acknowledged }) = pre.awaited() {
        assert(lines.len() == lines@.len());
    }
}

/// The lifecycle never moves backward.
pub proof fn lemma_lifecycle_never_regresses(
    pre: NixDebugAdapter,
    post: NixDebugAdapter,
    seq: i64,
    command: ExtendedRequestCommand,
    reply: CommandReply,
    out: Outcome,
)
    requires
        post.after_request(&pre, seq, command, out) || post.after_reply(&pre, reply, out)
            || post.after_loss(&pre, out),
    ensures
        pre.client.state.rank() <= post.client.state.rank(),
{
}

/// The `initialized` event comes strictly after the response to
/// `initialize`: no request yields an event, and where a reply yields the
/// event, the envelope before it is that response, with the lower number.
pub proof fn lemma_initialized_follows_response(
    pre: NixDebugAdapter,
    post: NixDebugAdapter,
    seq: i64,
    command: ExtendedRequestCommand,
    reply: CommandReply,
    out: Outcome,
    i: int,
)
    requires
        post.after_request(&pre, seq, command, out) || post.after_reply(&pre, reply, out),
        0 <= i < out.messages@.len(),
        out.messages@[i].message is Event,
    ensures
        i == 1,
        pre.awaited() matches Some(Pending::Initialize { seq: asked }) && out.leads_with(
            pre.client.send_seq as int,
            asked,
            ResponseBody::Initialize(reply->InitializeReply_0),
        ),
        out.messages@[1].carries_event(pre.client.send_seq + 1, EventBody::Initialized),
        out.messages@[0].seq < out.messages@[1].seq,
{
}

/// At rest the adapter has had one reply for each command it has sent. A
/// command goes out exactly where an outcome forwards one, and a reply is
/// counted exactly where one was awaited.
pub proof fn lemma_one_reply_for_each_command(
    pre: NixDebugAdapter,
    post: NixDebugAdapter,
    seq: i64,
    command: ExtendedRequestCommand,
    reply: CommandReply,
    out: Outcome,
)
    requires
        pre.wf(),
    ensures
        pre.is_quiescent() ==> pre.sent() == pre.received(),
        !pre.is_quiescent() ==> pre.sent() == pre.received() + 1,
        pre.is_quiescent() && post.after_request(&pre, seq, command, out) ==> post.received()
            == pre.received() && post.sent() == pre.sent() + (if out.forward is Some {
            1nat
        } else {
            0nat
        }) && (post.is_quiescent() <==> out.forward is None),
        post.after_reply(&pre, reply, out) ==> post.received() == pre.received() + (
        if pre.is_quiescent() {
            0nat
        } else {
            1nat
        }) && post.sent() == pre.sent() + (if out.forward is Some {
            1nat
        } else {
            0nat
        }) && (post.is_quiescent() <==> out.forward is None),
{
}

/// A `disconnect` leaves the adapter shut down, and a `disconnect` to an
/// adapter that is shut down changes nothing in the session: it is confirmed,
/// and nothing is asked of the worker.
pub proof fn lemma_disconnect_is_idempotent(
    pre: NixDebugAdapter,
    once: NixDebugAdapter,
    twice: NixDebugAdapter,
    first_seq: i64,
    second_seq: i64,
    first: Outcome,
    second: Outcome,
)
    requires
        once.after_request(&pre, first_seq, ExtendedRequestCommand::Disconnect, first),
        twice.after_request(&once, second_seq, ExtendedRequestCommand::Disconnect, second),
    ensures
        !once.is_live(),
        twice.same_session(&once),
        second.is_quiet(),
        second.answers(once.client.send_seq as int, second_seq, ResponseBody::Disconnect),
{
}

/// A `launch` that names no root file, or no attribute, fails, and leaves the
/// lifecycle and the session as they were. A live adapter gives the reason:
/// the root file where that is missing, else the attribute.
pub proof fn lemma_launch_needs_manifest_and_expression(
    pre: NixDebugAdapter,
    post: NixDebugAdapter,
    seq: i64,
    args: ExtendedLaunchArguments,
    out: Outcome,
)
    requires
        args.manifest is None || args.expression is None,
        post.after_request(&pre, seq, ExtendedRequestCommand::Launch(args), out),
    ensures
        out.fails(
            pre.client.send_seq as int,
            seq,
            if !pre.is_live() {
                "adapter shut down"@
            } else if args.manifest is None {
                "Root file must be specified"@
            } else {
                "Attribute must be specified"@
            },
        ),
        out.is_quiet(),
        post.client.state == pre.client.state,
        post.same_session(&pre),
{
}

/// An adapter that has been shut down refuses every request but
/// `disconnect`, with the reason "adapter shut down".
pub proof fn lemma_shut_down_adapter_refuses(
    pre: NixDebugAdapter,
    post: NixDebugAdapter,
    seq: i64,
    command: ExtendedRequestCommand,
    out: Outcome,
)
    requires
        !pre.is_live(),
        !(command is Disconnect),
        post.after_request(&pre, seq, command, out),
    ensures
        out.fails(pre.client.send_seq as int, seq, "adapter shut down"@),
        out.is_quiet(),
        post.same_session(&pre),
{
}

/// A command that the adapter does not know fails with the reason
/// "unsupported request", and the session goes on as it was.
pub proof fn lemma_unknown_command_is_unsupported(
    pre: NixDebugAdapter,
    post: NixDebugAdapter,
    seq: i64,
    name: String,
    out: Outcome,
)
    requires
        pre.is_live(),
        post.after_request(&pre, seq, ExtendedRequestCommand::Other(name), out),
    ensures
        out.fails(pre.client.send_seq as int, seq, "unsupported request"@),
        out.is_quiet(),
        post.same_session(&pre),
        post.is_live(),
{
}

} // verus!
