//! The execution observer: the state that lives beside the evaluator and the
//! decisions taken at each observation point.

use vstd::prelude::*;
use std::collections::HashSet;
use crate::commands::{Breakpoint, ObserverCommand, ObserverReply};

verus! {

broadcast use vstd::std_specs::hash::group_hash_axioms;

/// What the observed program is doing.
#[derive(Clone, Copy, Debug, PartialEq, Eq, Structural)]
pub enum Mode {
    /// The program has not been launched.
    Waiting,
    /// The program pauses before every instruction.
    Stepping,
    /// The program runs until a breakpoint fires.
    Running,
    /// The evaluation has returned.
    Done,
    /// The observer has been told to leave.
    Exiting,
}

/// The function whose frame was entered last: its name, if it has one, and
/// its rendering.
#[derive(Clone, Debug, PartialEq, Eq)]
pub struct Frame {
    pub name: Option<String>,
    pub shown: String,
}

/// One slot of the evaluator's value stack, as far as a lookup reads it.
#[derive(Clone, Debug, PartialEq, Eq)]
pub enum StackValue {
    /// A suspended computation. It is never forced by a lookup.
    Thunk,
    /// A function value: the name of its body, if it has one, and its
    /// rendering.
    Closure { name: Option<String>, shown: String },
    /// Any other value.
    Other,
}

impl StackValue {
    /// Whether the slot holds a function value named `name`.
    pub open spec fn is_named(self, name: Seq<char>) -> bool {
        self matches StackValue::Closure { name: Some(own), shown } && own@ == name
    }
}

/// The snapshot taken at the last observation point.
struct ProgramState {
    lambda: Option<Frame>,
    stack: Vec<StackValue>,
}

/// The lines at which execution is to pause.
struct BreakPoints {
    breakpoints: HashSet<usize>,
}

/// The observer as contracts see it.
pub struct ObserverView {
    pub mode: Mode,
    pub lines: Set<usize>,
    pub frame: Option<Frame>,
    pub stack: Seq<StackValue>,
}

/// An observer reply as contracts see it.
pub enum ReplyView {
    State,
    Done,
    NotReady,
    Found(Seq<char>),
    NotFound,
}

impl View for ObserverReply {
    type V = ReplyView;

    open spec fn view(&self) -> ReplyView {
        match *self {
            ObserverReply::State => ReplyView::State,
            ObserverReply::Done => ReplyView::Done,
            ObserverReply::NotReady => ReplyView::NotReady,
            ObserverReply::Found(text) => ReplyView::Found(text@),
            ObserverReply::NotFound => ReplyView::NotFound,
        }
    }
}

/// What became of one command: the reply to it, and whether the evaluator
/// goes on.
pub struct Handled {
    pub reply: ObserverReply,
    pub resume: bool,
}

/// The effect of one command, as contracts see it.
pub struct Step {
    pub state: ObserverView,
    pub reply: ReplyView,
    pub resume: bool,
}

/// The greatest index below `upto` at which `stack` holds a function value
/// named `name`.
pub open spec fn top_named(stack: Seq<StackValue>, name: Seq<char>, upto: int) -> Option<int>
    decreases upto,
{
    if upto <= 0 || upto > stack.len() {
        None
    } else if stack[upto - 1].is_named(name) {
        Some(upto - 1)
    } else {
        top_named(stack, name, upto - 1)
    }
}

/// Whether the entered function carries the name `name`.
pub open spec fn frame_named(frame: Option<Frame>, name: Seq<char>) -> bool {
    frame matches Some(Frame { name: Some(own), shown }) && own@ == name
}

/// The rendering of the value that a lookup of `name` finds: the entered
/// function if it carries the name, else the topmost function value on the
/// stack that does.
pub open spec fn located(frame: Option<Frame>, stack: Seq<StackValue>, name: Seq<char>) -> Option<
    Seq<char>,
> {
    if frame_named(frame, name) {
        Some(frame->0.shown@)
    } else {
        match top_named(stack, name, stack.len() as int) {
            Some(i) => Some(stack[i]->shown@),
            None => None,
        }
    }
}

/// The mode that a command stands for, where it stands for one.
pub open spec fn mode_of(command: ObserverCommand) -> Option<Mode> {
    match command {
        ObserverCommand::Wait => Some(Mode::Waiting),
        ObserverCommand::Launch(_) => Some(Mode::Stepping),
        ObserverCommand::Step => Some(Mode::Stepping),
        ObserverCommand::Continue => Some(Mode::Running),
        ObserverCommand::Done => Some(Mode::Done),
        ObserverCommand::Exit => Some(Mode::Exiting),
        ObserverCommand::Break(_) => None,
        ObserverCommand::Print(_) => None,
    }
}

impl ObserverView {
    /// The same observer in another mode.
    pub open spec fn in_mode(self, mode: Mode) -> ObserverView {
        ObserverView { mode, ..self }
    }

    /// Whether the evaluation is over or being abandoned.
    pub open spec fn is_finished(self) -> bool {
        self.mode == Mode::Done || self.mode == Mode::Exiting
    }

    /// The effect of one command on a paused observer.
    ///
    /// A program that waits takes a launch and nothing else. A launched
    /// program refuses a second launch, leaves on `Exit`, and once it is
    /// finished answers every other command with `Done`. Otherwise `Step`
    /// and `Continue` set the mode and let the evaluator go on, while `Break`
    /// and `Print` are served with the evaluator held.
    pub open spec fn on_command(self, command: ObserverCommand) -> Step {
        let taken = |state: ObserverView| Step { state, reply: ReplyView::State, resume: true };
        let refused = |reply: ReplyView| Step { state: self, reply, resume: false };
        match command {
            ObserverCommand::Launch(_) => if self.mode == Mode::Waiting {
                taken(self.in_mode(Mode::Stepping))
            } else {
                refused(ReplyView::NotReady)
            },
            _ if self.mode == Mode::Waiting => refused(ReplyView::NotReady),
            ObserverCommand::Exit => taken(self.in_mode(Mode::Exiting)),
            _ if self.is_finished() => refused(ReplyView::Done),
            ObserverCommand::Step => taken(self.in_mode(Mode::Stepping)),
            ObserverCommand::Continue => taken(self.in_mode(Mode::Running)),
            ObserverCommand::Break(breakpoint) => Step {
                state: ObserverView { lines: self.lines.insert(breakpoint.spec_line()), ..self },
                reply: ReplyView::State,
                resume: false,
            },
            ObserverCommand::Print(name) => match located(self.frame, self.stack, name@) {
                Some(text) => refused(ReplyView::Found(text)),
                None => refused(ReplyView::NotFound),
            },
            ObserverCommand::Wait => refused(ReplyView::State),
            ObserverCommand::Done => refused(ReplyView::State),
        }
    }

    /// The effect of the loss of the command channel: the observer is to
    /// leave, whatever its mode, and the evaluator is let go.
    pub open spec fn on_closed(self) -> Step {
        Step { state: self.in_mode(Mode::Exiting), reply: ReplyView::State, resume: true }
    }

    /// Whether the program is launched and not yet finished.
    pub open spec fn is_active(self) -> bool {
        self.mode == Mode::Stepping || self.mode == Mode::Running
    }

    /// Whether a breakpoint fires at `line`.
    pub open spec fn fires(self, line: usize) -> bool {
        self.is_active() && self.lines.contains(line)
    }

    /// The observer after the instruction at `line` has been announced: a
    /// breakpoint that fires is taken out and leaves the program stepping.
    pub open spec fn on_op(self, line: usize) -> ObserverView {
        if self.fires(line) {
            ObserverView { mode: Mode::Stepping, lines: self.lines.remove(line), ..self }
        } else {
            self
        }
    }

    /// Whether the evaluator is held at the instruction at `line` until a
    /// command lets it go on.
    pub open spec fn pauses(self, line: usize) -> bool {
        self.fires(line) || self.mode == Mode::Waiting || self.mode == Mode::Stepping
    }

    /// The observer after the first `count` commands of `commands`.
    pub open spec fn after(self, commands: Seq<ObserverCommand>, count: int) -> ObserverView
        decreases count,
    {
        if count <= 0 || count > commands.len() {
            self
        } else {
            self.after(commands, count - 1).on_command(commands[count - 1]).state
        }
    }

    /// The effect of the command at `index`, taken after all those before it.
    pub open spec fn step_at(self, commands: Seq<ObserverCommand>, index: int) -> Step {
        self.after(commands, index).on_command(commands[index])
    }
}

/// The execution observer. It is owned by the thread that runs the evaluator.
pub struct DebugObserver {
    breakpoints: BreakPoints,
    cur_cmd: Mode,
    cur_state: ProgramState,
}

/// What a run of commands at one pause came to.
pub struct Drained {
    /// One reply for each command that was taken, in order.
    pub replies: Vec<ObserverReply>,
    /// Whether the last command taken lets the evaluator go on.
    pub resumed: bool,
}

impl View for DebugObserver {
    type V = ObserverView;

    closed spec fn view(&self) -> ObserverView {
        ObserverView {
            mode: self.cur_cmd,
            lines: self.breakpoints.breakpoints@,
            frame: self.cur_state.lambda,
            stack: self.cur_state.stack@,
        }
    }
}

impl DebugObserver {
    /// An observer of a program that has not been launched: no breakpoints,
    /// no frame, an empty stack.
    pub fn new() -> (observer: DebugObserver)
        ensures
            observer@ == (ObserverView {
                mode: Mode::Waiting,
                lines: Set::<usize>::empty(),
                frame: None,
                stack: Seq::<StackValue>::empty(),
            }),
    {
        DebugObserver {
            breakpoints: BreakPoints { breakpoints: HashSet::new() },
            cur_cmd: Mode::Waiting,
            cur_state: ProgramState { lambda: None, stack: Vec::new() },
        }
    }

    /// The mode of the program.
    pub fn mode(&self) -> (mode: Mode)
        ensures
            mode == self@.mode,
    {
        self.cur_cmd
    }

    /// Whether a breakpoint is armed at `line`.
    pub fn has_breakpoint(&self, line: usize) -> (armed: bool)
        ensures
            armed == self@.lines.contains(line),
    {
        self.breakpoints.breakpoints.contains(&line)
    }

    /// Puts the program into the mode that `command` stands for. A command
    /// that stands for no mode changes nothing.
    pub fn set_cmd(&mut self, command: &ObserverCommand)
        ensures
            final(self)@ == (match mode_of(*command) {
                Some(mode) => old(self)@.in_mode(mode),
                None => old(self)@,
            }),
    {
        match command {
            ObserverCommand::Wait => { self.cur_cmd = Mode::Waiting; },
            ObserverCommand::Launch(_) => { self.cur_cmd = Mode::Stepping; },
            ObserverCommand::Step => { self.cur_cmd = Mode::Stepping; },
            ObserverCommand::Continue => { self.cur_cmd = Mode::Running; },
            ObserverCommand::Done => { self.cur_cmd = Mode::Done; },
            ObserverCommand::Exit => { self.cur_cmd = Mode::Exiting; },
            ObserverCommand::Break(_) => {},
            ObserverCommand::Print(_) => {},
        }
    }

    /// Takes one command at a pause: changes the state as the command asks,
    /// and says what to reply and whether the evaluator goes on.
    pub fn handle_command(&mut self, command: &ObserverCommand) -> (handled: Handled)
        ensures
            final(self)@ == old(self)@.on_command(*command).state,
            handled.reply@ == old(self)@.on_command(*command).reply,
            handled.resume == old(self)@.on_command(*command).resume,
    {
        let finished = match self.cur_cmd {
            Mode::Done => true,
            Mode::Exiting => true,
            _ => false,
        };
        let waiting = match self.cur_cmd {
            Mode::Waiting => true,
            _ => false,
        };
        match command {
            ObserverCommand::Launch(_) => {
                if waiting {
                    self.handle_launch();
                    Handled { reply: ObserverReply::State, resume: true }
                } else {
                    Handled { reply: ObserverReply::NotReady, resume: false }
                }
            },
            _ if waiting => Handled { reply: ObserverReply::NotReady, resume: false },
            ObserverCommand::Exit => {
                self.cur_cmd = Mode::Exiting;
                Handled { reply: ObserverReply::State, resume: true }
            },
            _ if finished => Handled { reply: ObserverReply::Done, resume: false },
            ObserverCommand::Step => {
                self.handle_step();
                Handled { reply: ObserverReply::State, resume: true }
            },
            ObserverCommand::Continue => {
                self.handle_continue();
                Handled { reply: ObserverReply::State, resume: true }
            },
            ObserverCommand::Break(breakpoint) => {
                self.handle_break(breakpoint);
                Handled { reply: ObserverReply::State, resume: false }
            },
            ObserverCommand::Print(name) => {
                match self.handle_print(name) {
                    Some(text) => Handled { reply: ObserverReply::Found(text), resume: false },
                    None => Handled { reply: ObserverReply::NotFound, resume: false },
                }
            },
            ObserverCommand::Wait => Handled { reply: ObserverReply::State, resume: false },
            ObserverCommand::Done => Handled { reply: ObserverReply::State, resume: false },
        }
    }

    /// Takes the loss of the command channel: nobody is left to command the
    /// observer, so it is to leave, and the evaluator is let go.
    pub fn handle_closed(&mut self) -> (handled: Handled)
        ensures
            final(self)@ == old(self)@.on_closed().state,
            final(self)@ == old(self)@.in_mode(Mode::Exiting),
            handled.reply@ == old(self)@.on_closed().reply,
            handled.resume,
    {
        self.cur_cmd = Mode::Exiting;
        Handled { reply: ObserverReply::State, resume: true }
    }

    /// Tests whether a breakpoint is armed at `line`. One that is armed fires:
    /// it is taken out of the set, and the program is left stepping.
    fn is_breakpoint(&mut self, line: usize) -> (found: bool)
        ensures
            found == old(self)@.lines.contains(line),
            found ==> final(self)@ == (ObserverView {
                mode: Mode::Stepping,
                lines: old(self)@.lines.remove(line),
                ..old(self)@
            }),
            !found ==> final(self)@ == old(self)@,
            !final(self)@.lines.contains(line),
    {
        let found = self.breakpoints.breakpoints.contains(&line);
        if found {
            self.breakpoints.breakpoints.remove(&line);
            self.cur_cmd = Mode::Stepping;
        }
        found
    }

    fn handle_launch(&mut self)
        ensures
            final(self)@ == old(self)@.in_mode(Mode::Stepping),
    {
        self.cur_cmd = Mode::Stepping;
    }

    fn handle_continue(&mut self)
        ensures
            final(self)@ == old(self)@.in_mode(Mode::Running),
    {
        self.cur_cmd = Mode::Running;
    }

    fn handle_step(&mut self)
        ensures
            final(self)@ == old(self)@.in_mode(Mode::Stepping),
    {
        self.cur_cmd = Mode::Stepping;
    }

    /// Looks `var_name` up: first in the function whose frame was entered
    /// last, then among the function values on the stack, from the top down.
    /// Suspended computations are passed over.
    pub fn handle_print(&self, var_name: &String) -> (found: Option<String>)
        ensures
            found is Some <==> located(self@.frame, self@.stack, var_name@) is Some,
            found matches Some(text) ==> located(self@.frame, self@.stack, var_name@) == Some(
                text@,
            ),
    {
        if let Some(lambda) = &self.cur_state.lambda {
            if let Some(name) = &lambda.name {
                if *name == *var_name {
                    return Some(lambda.shown.clone());
                }
            }
        }
        let mut i: usize = self.cur_state.stack.len();
        while i > 0
            invariant
                i <= self.cur_state.stack.len(),
                !frame_named(self@.frame, var_name@),
                top_named(self@.stack, var_name@, self@.stack.len() as int) == top_named(
                    self@.stack,
                    var_name@,
                    i as int,
                ),
            decreases i,
        {
            i = i - 1;
            match &self.cur_state.stack[i] {
                StackValue::Closure { name: Some(fn_name), shown } => {
                    if *fn_name == *var_name {
                        assert(self@.stack[i as int].is_named(var_name@));
                        assert(top_named(self@.stack, var_name@, i + 1) == Some(i as int));
                        return Some(shown.clone());
                    }
                },
                _ => {},
            }
        }
        None
    }

    /// Arms a breakpoint at the line that `breakpoint` names.
    fn handle_break(&mut self, breakpoint: &Breakpoint)
        ensures
            final(self)@ == (ObserverView {
                lines: old(self)@.lines.insert(breakpoint.spec_line()),
                ..old(self)@
            }),
    {
        let line: usize = breakpoint.line();
        let _ = self.breakpoints.breakpoints.insert(line);
    }

    /// Records the function whose frame has been entered.
    pub fn observe_enter_call_frame(&mut self, lambda: Frame)
        ensures
            final(self)@ == (ObserverView { frame: Some(lambda), ..old(self)@ }),
    {
        self.cur_state.lambda = Some(lambda);
    }

    /// Records the value stack as it stands when a frame is left.
    pub fn observe_exit_call_frame(&mut self, stack: Vec<StackValue>)
        ensures
            final(self)@ == (ObserverView { stack: stack@, ..old(self)@ }),
    {
        self.cur_state.stack = stack;
    }

    /// Records the value stack as it stands when a generator is entered.
    pub fn observe_enter_generator(&mut self, stack: Vec<StackValue>)
        ensures
            final(self)@ == (ObserverView { stack: stack@, ..old(self)@ }),
    {
        self.cur_state.stack = stack;
    }

    /// Records the value stack as it stands when a generator is left.
    pub fn observe_exit_generator(&mut self, stack: Vec<StackValue>)
        ensures
            final(self)@ == (ObserverView { stack: stack@, ..old(self)@ }),
    {
        self.cur_state.stack = stack;
    }

    /// Records the value stack as it stands when a generator is suspended.
    pub fn observe_suspend_generator(&mut self, stack: Vec<StackValue>)
        ensures
            final(self)@ == (ObserverView { stack: stack@, ..old(self)@ }),
    {
        self.cur_state.stack = stack;
    }

    /// The pause point: called before the instruction at `line` runs. In a
    /// launched program that is not finished, a breakpoint armed at `line`
    /// fires. The result says whether the evaluator must be held until a
    /// command lets it go on.
    pub fn observe_execute_op(&mut self, line: usize) -> (pause: bool)
        ensures
            final(self)@ == old(self)@.on_op(line),
            pause == old(self)@.pauses(line),
    {
        match self.cur_cmd {
            Mode::Done => false,
            Mode::Exiting => false,
            Mode::Waiting => true,
            Mode::Running => self.is_breakpoint(line),
            Mode::Stepping => {
                let _ = self.is_breakpoint(line);
                true
            },
        }
    }

    /// Takes the commands of `commands` in order, as one pause does, up to
    /// and including the first that lets the evaluator go on.
    pub fn drain(&mut self, commands: &Vec<ObserverCommand>) -> (drained: Drained)
        ensures
            drained.replies@.len() <= commands@.len(),
            final(self)@ == old(self)@.after(commands@, drained.replies@.len() as int),
            forall|i: int|
                0 <= i < drained.replies@.len() ==> (#[trigger] drained.replies@[i])@ == old(
                    self,
                )@.step_at(commands@, i).reply,
            forall|i: int|
                0 <= i < drained.replies@.len() - 1 ==> !(#[trigger] old(self)@.step_at(
                    commands@,
                    i,
                )).resume,
            drained.resumed <==> drained.replies@.len() > 0 && old(self)@.step_at(
                commands@,
                drained.replies@.len() - 1,
            ).resume,
            !drained.resumed ==> drained.replies@.len() == commands@.len(),
    {
        let mut replies: Vec<ObserverReply> = Vec::new();
        let mut resumed = false;
        let mut i: usize = 0;
        while i < commands.len() && !resumed
            invariant
                i <= commands@.len(),
                replies@.len() == i,
                self@ == old(self)@.after(commands@, i as int),
                forall|j: int|
                    0 <= j < i ==> (#[trigger] replies@[j])@ == old(self)@.step_at(
                        commands@,
                        j,
                    ).reply,
                forall|j: int|
                    0 <= j < i - 1 ==> !(#[trigger] old(self)@.step_at(commands@, j)).resume,
                resumed <==> i > 0 && old(self)@.step_at(commands@, i - 1).resume,
            decreases commands@.len() - i,
        {
            let handled = self.handle_command(&commands[i]);
            resumed = handled.resume;
            replies.push(handled.reply);
            i = i + 1;
        }
        Drained { replies, resumed }
    }
}

/// A breakpoint that has fired is out of the set, and stays out whatever is
/// observed or commanded next, until a `Break` command names its line again.
pub proof fn lemma_fired_breakpoint_stays_out(
    observer: ObserverView,
    line: usize,
    next_line: usize,
    command: ObserverCommand,
)
    requires
        observer.fires(line),
    ensures
        !observer.on_op(line).lines.contains(line),
        observer.on_op(line).mode == Mode::Stepping,
        !observer.on_op(line).on_op(next_line).lines.contains(line),
        !observer.on_op(line).on_op(line).fires(line),
        observer.on_op(line).on_command(command).state.lines.contains(line) <==> (
        command matches ObserverCommand::Break(breakpoint) && breakpoint.spec_line() == line),
{
}

/// Arming a breakpoint on a line that is armed already changes nothing.
pub proof fn lemma_arming_twice_is_arming_once(observer: ObserverView, breakpoint: Breakpoint)
    requires
        observer.lines.contains(breakpoint.spec_line()),
    ensures
        observer.on_command(ObserverCommand::Break(breakpoint)).state == observer,
        !observer.on_command(ObserverCommand::Break(breakpoint)).resume,
{
    assert(observer.lines.insert(breakpoint.spec_line()) =~= observer.lines);
}

/// A program that waits takes a launch and nothing else: the launch leaves
/// it stepping, every other command is refused and changes nothing, and
/// nothing that is observed moves it. A launch of a program that no longer
/// waits is refused and changes nothing.
pub proof fn lemma_only_launch_leaves_waiting(
    observer: ObserverView,
    command: ObserverCommand,
    line: usize,
)
    ensures
        observer.mode == Mode::Waiting && command is Launch ==> observer.on_command(command)
            == (Step {
            state: observer.in_mode(Mode::Stepping),
            reply: ReplyView::State,
            resume: true,
        }),
        observer.mode == Mode::Waiting && !(command is Launch) ==> observer.on_command(command)
            == (Step { state: observer, reply: ReplyView::NotReady, resume: false }),
        observer.mode == Mode::Waiting ==> observer.on_op(line) == observer && observer.pauses(
            line,
        ),
        observer.mode != Mode::Waiting && command is Launch ==> observer.on_command(command)
            == (Step { state: observer, reply: ReplyView::NotReady, resume: false }),
{
}

/// The mode follows the transitions of the observer and no others. `Step`
/// and `Continue` move a launched program between stepping and running, a
/// breakpoint that fires takes it to stepping, `Exit` takes it to exiting,
/// and a program that is done stays done until then. The evaluator is let go
/// exactly by the commands that are taken as a transition. The loss of the
/// command channel takes any program to exiting.
pub proof fn lemma_mode_transitions(observer: ObserverView, command: ObserverCommand, line: usize)
    ensures
        ({
            let next = observer.on_command(command).state.mode;
            &&& observer.mode != Mode::Waiting && command is Exit ==> next == Mode::Exiting
            &&& !(command is Exit) && observer.is_finished() ==> next == observer.mode
            &&& observer.is_active() ==> next == (match command {
                ObserverCommand::Exit => Mode::Exiting,
                ObserverCommand::Step => Mode::Stepping,
                ObserverCommand::Continue => Mode::Running,
                _ => observer.mode,
            })
        }),
        observer.on_op(line).mode == (if observer.fires(line) {
            Mode::Stepping
        } else {
            observer.mode
        }),
        observer.on_command(command).resume <==> (observer.mode == Mode::Waiting
            && command is Launch) || (observer.mode != Mode::Waiting && command is Exit) || (
        observer.is_active() && (command is Step || command is Continue)),
        observer.on_closed().state.mode == Mode::Exiting,
        observer.on_closed().resume,
{
}

} // verus!
