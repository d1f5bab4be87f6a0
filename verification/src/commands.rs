//! The command vocabulary between the adapter, the debugger worker and the
//! execution observer.

use vstd::prelude::*;
use crate::capabilities::Capabilities;

verus! {

/// Where execution is asked to pause. Lines are counted from one.
#[derive(Clone, Debug, PartialEq, Eq)]
pub enum Breakpoint {
    Line(usize),
    FileLine { file: String, line: usize },
}

/// A breakpoint as contracts see it.
pub enum BreakpointView {
    Line(usize),
    FileLine { file: Seq<char>, line: usize },
}

impl View for Breakpoint {
    type V = BreakpointView;

    open spec fn view(&self) -> BreakpointView {
        match *self {
            Breakpoint::Line(line) => BreakpointView::Line(line),
            Breakpoint::FileLine { file, line } => BreakpointView::FileLine { file: file@, line },
        }
    }
}

impl Breakpoint {
    /// The line of the breakpoint, whatever the file.
    pub open spec fn spec_line(self) -> usize {
        match self {
            Breakpoint::Line(line) => line,
            Breakpoint::FileLine { file, line } => line,
        }
    }

    /// The line of the breakpoint, whatever the file.
    pub fn line(&self) -> (line: usize)
        ensures
            line == self.spec_line(),
    {
        match self {
            Breakpoint::Line(line) => *line,
            Breakpoint::FileLine { file: _, line } => *line,
        }
    }
}

/// What the adapter asks of the debugger worker.
#[derive(Clone, Debug, PartialEq, Eq)]
pub enum Command {
    Exit,
    Unknown,
    Initialize,
    Continue,
    Launch(String),
    Step,
    Break(Breakpoint),
    Print(String),
}

/// What the debugger worker answers: one reply for each command.
#[derive(Clone, Debug, PartialEq, Eq)]
pub enum CommandReply {
    ExitReply,
    UnknownReply,
    InitializeReply(Capabilities),
    LaunchReply,
    StepReply,
    BreakReply,
    /// The rendering of the value that was found under the name asked for,
    /// or `None` where nothing carries that name.
    PrintReply(Option<String>),
    ContinueReply,
    /// The command cannot be served in the present state of the program.
    NotReady,
    /// The program has run to its end.
    Terminated,
}

/// What the debugger worker asks of the observer. `Wait` and `Done` stand
/// for states of the program rather than for requests.
#[derive(Clone, Debug, PartialEq, Eq)]
pub enum ObserverCommand {
    Exit,
    Wait,
    Done,
    Launch(String),
    Continue,
    Step,
    Break(Breakpoint),
    Print(String),
}

/// What the observer answers: one reply for each command.
#[derive(Clone, Debug, PartialEq, Eq)]
pub enum ObserverReply {
    /// The command was taken.
    State,
    /// The program has run to its end.
    Done,
    /// The command cannot be served in the present state of the program.
    NotReady,
    /// The rendering of the value that was found under the name asked for.
    Found(String),
    /// Nothing in the current frame or on the stack carries the name.
    NotFound,
}

/// A command as contracts see it.
pub enum CommandView {
    Exit,
    Unknown,
    Initialize,
    Continue,
    Launch(Seq<char>),
    Step,
    Break(BreakpointView),
    Print(Seq<char>),
}

impl View for Command {
    type V = CommandView;

    open spec fn view(&self) -> CommandView {
        match *self {
            Command::Exit => CommandView::Exit,
            Command::Unknown => CommandView::Unknown,
            Command::Initialize => CommandView::Initialize,
            Command::Continue => CommandView::Continue,
            Command::Launch(program) => CommandView::Launch(program@),
            Command::Step => CommandView::Step,
            Command::Break(breakpoint) => CommandView::Break(breakpoint@),
            Command::Print(name) => CommandView::Print(name@),
        }
    }
}

impl Command {
    /// The name of the command.
    pub open spec fn spec_name(self) -> Seq<char> {
        match self {
            Command::Exit => "Exit"@,
            Command::Unknown => "Unknown"@,
            Command::Initialize => "Initialize"@,
            Command::Continue => "Continue"@,
            Command::Launch(_) => "Launch"@,
            Command::Step => "Step"@,
            Command::Break(_) => "Break"@,
            Command::Print(_) => "Print"@,
        }
    }

    /// The name of the command.
    pub fn name(&self) -> (name: String)
        ensures
            name@ == self.spec_name(),
    {
        match self {
            Command::Exit => "Exit".to_owned(),
            Command::Unknown => "Unknown".to_owned(),
            Command::Initialize => "Initialize".to_owned(),
            Command::Continue => "Continue".to_owned(),
            Command::Launch(_) => "Launch".to_owned(),
            Command::Step => "Step".to_owned(),
            Command::Break(_) => "Break".to_owned(),
            Command::Print(_) => "Print".to_owned(),
        }
    }
}

impl CommandReply {
    /// The name of the reply, in snake case.
    pub open spec fn spec_name(self) -> Seq<char> {
        match self {
            CommandReply::ExitReply => "exit_reply"@,
            CommandReply::UnknownReply => "unknown_reply"@,
            CommandReply::InitializeReply(_) => "initialize_reply"@,
            CommandReply::LaunchReply => "launch_reply"@,
            CommandReply::StepReply => "step_reply"@,
            CommandReply::BreakReply => "break_reply"@,
            CommandReply::PrintReply(_) => "print_reply"@,
            CommandReply::ContinueReply => "continue_reply"@,
            CommandReply::NotReady => "not_ready"@,
            CommandReply::Terminated => "terminated"@,
        }
    }

    /// The name of the reply, in snake case.
    pub fn name(&self) -> (name: String)
        ensures
            name@ == self.spec_name(),
    {
        match self {
            CommandReply::ExitReply => "exit_reply".to_owned(),
            CommandReply::UnknownReply => "unknown_reply".to_owned(),
            CommandReply::InitializeReply(_) => "initialize_reply".to_owned(),
            CommandReply::LaunchReply => "launch_reply".to_owned(),
            CommandReply::StepReply => "step_reply".to_owned(),
            CommandReply::BreakReply => "break_reply".to_owned(),
            CommandReply::PrintReply(_) => "print_reply".to_owned(),
            CommandReply::ContinueReply => "continue_reply".to_owned(),
            CommandReply::NotReady => "not_ready".to_owned(),
            CommandReply::Terminated => "terminated".to_owned(),
        }
    }
}

} // verus!
