//! The debugger worker: it takes the commands of the adapter, decides what to
//! ask of the observer, and turns the observer's answers into replies.
//!
//! The worker starts no thread and touches no channel itself. For each
//! command [`TvixBackend::handle_command`] returns a [`BackendStep`] that
//! says what is to be done; where the reply depends on the observer,
//! [`TvixBackend::conclude`] gives it once the answer is in.

use vstd::prelude::*;
use crate::capabilities::{advertised_capabilities, Capabilities};
use crate::commands::{Command, CommandReply, ObserverCommand, ObserverReply};
use crate::config::Args;
use crate::lifecycle::DebuggerState;
use crate::observer::ReplyView;

verus! {

/// What is to be done for one command. The steps are taken in the order of
/// the fields.
#[derive(Clone, Debug, PartialEq, Eq)]
pub struct BackendStep {
    /// Start an observer, with its evaluator, on the program at this path.
    pub spawn: Option<String>,
    /// Send this command to the observer, and wait for its answer.
    pub forward: Option<ObserverCommand>,
    /// Join the observer once its answer is in.
    pub join: bool,
    /// The reply, where it does not depend on the observer. Where it does,
    /// this is `None` and `forward` is not.
    pub reply: Option<CommandReply>,
}

/// The worker as contracts see it.
pub struct BackendView {
    pub state: DebuggerState,
    /// Path of the program that was launched last.
    pub code_path: Option<String>,
    /// Whether an observer is running.
    pub launched: bool,
}

/// The command for the observer that carries out `command`, where there is
/// one.
pub open spec fn relayed(command: Command) -> Option<ObserverCommand> {
    match command {
        Command::Exit => Some(ObserverCommand::Exit),
        Command::Continue => Some(ObserverCommand::Continue),
        Command::Launch(program) => Some(ObserverCommand::Launch(program)),
        Command::Step => Some(ObserverCommand::Step),
        Command::Break(breakpoint) => Some(ObserverCommand::Break(breakpoint)),
        Command::Print(name) => Some(ObserverCommand::Print(name)),
        Command::Initialize => None,
        Command::Unknown => None,
    }
}

/// Whether the reply `reply` is the one that the worker gives to `command`
/// when the observer has answered `answer`, or has gone without an answer
/// (`None`).
///
/// `Exit` is always confirmed. Otherwise an observer that is gone or whose
/// program has ended makes the reply `Terminated`, one that refuses makes it
/// `NotReady`, and one that has taken the command makes it the reply that
/// echoes the command; for `Print`, with the value that was found.
pub open spec fn concludes(command: Command, answer: Option<ReplyView>, reply: CommandReply) -> bool {
    match command {
        Command::Exit => reply is ExitReply,
        Command::Initialize => reply is UnknownReply,
        Command::Unknown => reply is UnknownReply,
        _ => match answer {
            None => reply is Terminated,
            Some(ReplyView::Done) => reply is Terminated,
            Some(ReplyView::NotReady) => reply is NotReady,
            Some(ReplyView::Found(text)) => if command is Print {
                reply matches CommandReply::PrintReply(Some(shown)) && shown@ == text
            } else {
                reply == echo(command)
            },
            Some(ReplyView::NotFound) => if command is Print {
                reply == CommandReply::PrintReply(None)
            } else {
                reply == echo(command)
            },
            Some(ReplyView::State) => reply == echo(command),
        },
    }
}

/// The reply that echoes a command which the observer has taken. A `Print`
/// that comes back without a value is echoed as not found.
pub open spec fn echo(command: Command) -> CommandReply {
    match command {
        Command::Exit => CommandReply::ExitReply,
        Command::Continue => CommandReply::ContinueReply,
        Command::Launch(_) => CommandReply::LaunchReply,
        Command::Step => CommandReply::StepReply,
        Command::Break(_) => CommandReply::BreakReply,
        Command::Print(_) => CommandReply::PrintReply(None),
        Command::Initialize => CommandReply::UnknownReply,
        Command::Unknown => CommandReply::UnknownReply,
    }
}

impl BackendView {
    /// The worker after `command`. A launch records the program and the
    /// observer it starts, an exit gives the observer up, and no command
    /// moves the lifecycle.
    pub open spec fn after(self, command: Command) -> BackendView {
        match command {
            Command::Launch(program) => if self.launched {
                self
            } else {
                BackendView { code_path: Some(program), launched: true, ..self }
            },
            Command::Exit => BackendView { launched: false, ..self },
            _ => self,
        }
    }

    /// What is to be done for `command`.
    pub open spec fn step(self, command: Command) -> BackendStep {
        let quiet = |reply: CommandReply|
            BackendStep { spawn: None, forward: None, join: false, reply: Some(reply) };
        match command {
            Command::Initialize => quiet(CommandReply::InitializeReply(Capabilities::advertised())),
            Command::Unknown => quiet(CommandReply::UnknownReply),
            Command::Launch(program) => if self.launched {
                quiet(CommandReply::NotReady)
            } else {
                BackendStep {
                    spawn: Some(program),
                    forward: relayed(command),
                    join: false,
                    reply: None,
                }
            },
            Command::Exit => if self.launched {
                BackendStep { spawn: None, forward: relayed(command), join: true, reply: None }
            } else {
                quiet(CommandReply::ExitReply)
            },
            _ => if self.launched {
                BackendStep { spawn: None, forward: relayed(command), join: false, reply: None }
            } else {
                quiet(CommandReply::NotReady)
            },
        }
    }
}

/// The debugger worker.
#[derive(Debug)]
pub struct TvixBackend {
    state: DebuggerState,
    code_path: Option<String>,
    launched: bool,
}

impl View for TvixBackend {
    type V = BackendView;

    closed spec fn view(&self) -> BackendView {
        BackendView { state: self.state, code_path: self.code_path, launched: self.launched }
    }
}

impl TvixBackend {
    /// A worker that has not been initialized and observes no program.
    pub fn new(_args: Args) -> (backend: TvixBackend)
        ensures
            backend@ == (BackendView {
                state: DebuggerState::Uninitialized,
                code_path: None,
                launched: false,
            }),
    {
        TvixBackend { state: DebuggerState::Uninitialized, code_path: None, launched: false }
    }

    /// The lifecycle state of the worker.
    pub fn get_state(&self) -> (state: DebuggerState)
        ensures
            state == self@.state,
    {
        self.state
    }

    /// Whether the worker goes on taking commands: it has not been shut
    /// down, and the shutdown flag has not been raised.
    pub fn keeps_running(&self, shutdown: bool) -> (running: bool)
        ensures
            running == (self@.state.rank() < DebuggerState::ShutDown.rank() && !shutdown),
    {
        self.state.is_live() && !shutdown
    }

    /// Whether an observer is running.
    pub fn is_launched(&self) -> (launched: bool)
        ensures
            launched == self@.launched,
    {
        self.launched
    }

    /// Takes one command of the adapter.
    pub fn handle_command(&mut self, command: Command) -> (step: BackendStep)
        ensures
            final(self)@ == old(self)@.after(command),
            step == old(self)@.step(command),
    {
        match command {
            Command::Initialize => {
                let capabilities = self.handle_initialize();
                Self::settled(CommandReply::InitializeReply(capabilities))
            },
            Command::Launch(program) => self.handle_launch(program),
            Command::Step => self.handle_step(),
            Command::Break(breakpoint) => self.handle_forward(ObserverCommand::Break(breakpoint)),
            Command::Print(name) => self.handle_forward(ObserverCommand::Print(name)),
            Command::Continue => self.handle_continue(),
            Command::Exit => self.handle_exit(),
            Command::Unknown => Self::settled(CommandReply::UnknownReply),
        }
    }

    /// A step that is its reply.
    fn settled(reply: CommandReply) -> (step: BackendStep)
        ensures
            step == (BackendStep { spawn: None, forward: None, join: false, reply: Some(reply) }),
    {
        BackendStep { spawn: None, forward: None, join: false, reply: Some(reply) }
    }

    /// Passes one command on to the observer, if one is running.
    fn handle_forward(&mut self, command: ObserverCommand) -> (step: BackendStep)
        ensures
            final(self)@ == old(self)@,
            step == (if old(self)@.launched {
                BackendStep { spawn: None, forward: Some(command), join: false, reply: None }
            } else {
                BackendStep {
                    spawn: None,
                    forward: None,
                    join: false,
                    reply: Some(CommandReply::NotReady),
                }
            }),
    {
        if self.launched {
            BackendStep { spawn: None, forward: Some(command), join: false, reply: None }
        } else {
            Self::settled(CommandReply::NotReady)
        }
    }

    fn handle_initialize(&mut self) -> (capabilities: Capabilities)
        ensures
            capabilities == Capabilities::advertised(),
            final(self)@ == old(self)@,
    {
        advertised_capabilities()
    }

    fn handle_exit(&mut self) -> (step: BackendStep)
        ensures
            final(self)@ == old(self)@.after(Command::Exit),
            step == old(self)@.step(Command::Exit),
    {
        if self.launched {
            self.launched = false;
            BackendStep { spawn: None, forward: Some(ObserverCommand::Exit), join: true, reply: None }
        } else {
            Self::settled(CommandReply::ExitReply)
        }
    }

    fn handle_launch(&mut self, program: String) -> (step: BackendStep)
        ensures
            final(self)@ == old(self)@.after(Command::Launch(program)),
            step == old(self)@.step(Command::Launch(program)),
    {
        if self.launched {
            return Self::settled(CommandReply::NotReady);
        }
        self.launched = true;
        self.code_path = Some(program.clone());
        BackendStep {
            spawn: Some(program.clone()),
            forward: Some(ObserverCommand::Launch(program)),
            join: false,
            reply: None,
        }
    }

    fn handle_continue(&mut self) -> (step: BackendStep)
        ensures
            final(self)@ == old(self)@,
            step == old(self)@.step(Command::Continue),
    {
        self.handle_forward(ObserverCommand::Continue)
    }

    fn handle_step(&mut self) -> (step: BackendStep)
        ensures
            final(self)@ == old(self)@,
            step == old(self)@.step(Command::Step),
    {
        self.handle_forward(ObserverCommand::Step)
    }

    /// Gives up the observer. The result says whether there is one to join.
    pub fn exit(&mut self) -> (join: bool)
        ensures
            join == old(self)@.launched,
            final(self)@ == (BackendView { launched: false, ..old(self)@ }),
    {
        let join = self.launched;
        self.launched = false;
        join
    }

    /// The reply to a command that was passed on, once the observer has
    /// answered it, or has gone without an answer (`None`).
    pub fn conclude(command: &Command, answer: Option<ObserverReply>) -> (reply: CommandReply)
        ensures
            concludes(
                *command,
                match answer {
                    Some(answer) => Some(answer@),
                    None => None,
                },
                reply,
            ),
    {
        let echoed = match command {
            Command::Exit => { return CommandReply::ExitReply; },
            Command::Initialize => { return CommandReply::UnknownReply; },
            Command::Unknown => { return CommandReply::UnknownReply; },
            Command::Continue => CommandReply::ContinueReply,
            Command::Launch(_) => CommandReply::LaunchReply,
            Command::Step => CommandReply::StepReply,
            Command::Break(_) => CommandReply::BreakReply,
            Command::Print(_) => CommandReply::PrintReply(None),
        };
        match answer {
            None => CommandReply::Terminated,
            Some(ObserverReply::Done) => CommandReply::Terminated,
            Some(ObserverReply::NotReady) => CommandReply::NotReady,
            Some(ObserverReply::Found(text)) => match command {
                Command::Print(_) => CommandReply::PrintReply(Some(text)),
                _ => echoed,
            },
            Some(ObserverReply::NotFound) => echoed,
            Some(ObserverReply::State) => echoed,
        }
    }
}

/// No command moves the worker's lifecycle: the worker leaves when the
/// shutdown flag is raised or its channel closes, not by a state of its own.
pub proof fn lemma_worker_lifecycle(backend: BackendView, command: Command)
    ensures
        backend.after(command).state == backend.state,
        command is Initialize || command is Unknown ==> backend.after(command) == backend,
{
}

/// Every command has exactly one reply: either the step carries it and
/// nothing goes to the observer, or one command goes to the observer and its
/// answer decides the reply. An observer is started only by the launch of a
/// worker that has none, and joined only by the exit of one that has.
pub proof fn lemma_one_reply_for_each_command(backend: BackendView, command: Command)
    ensures
        backend.step(command).reply is Some <==> backend.step(command).forward is None,
        backend.step(command).forward matches Some(forwarded) ==> relayed(command) == Some(
            forwarded,
        ),
        backend.step(command).spawn is Some <==> command is Launch && !backend.launched,
        backend.step(command).join <==> command is Exit && backend.launched,
        backend.step(command).forward is Some ==> backend.launched || command is Launch,
{
}

} // verus!
