use dawn::backend::{BackendStep, TvixBackend};
use dawn::capabilities::advertised_capabilities;
use dawn::commands::{Breakpoint, Command, CommandReply, ObserverCommand, ObserverReply};
use dawn::config::Args;
use dawn::lifecycle::DebuggerState;

fn backend() -> TvixBackend {
    TvixBackend::new(Args { program: "p.nix".to_string() })
}

fn settled(reply: CommandReply) -> BackendStep {
    BackendStep { spawn: None, forward: None, join: false, reply: Some(reply) }
}

fn forwarded(command: ObserverCommand) -> BackendStep {
    BackendStep { spawn: None, forward: Some(command), join: false, reply: None }
}

fn launched() -> TvixBackend {
    let mut backend = backend();
    backend.handle_command(Command::Launch("p.nix".to_string()));
    backend
}

#[test]
fn validate_leaves_the_arguments_alone() {
    let mut args = Args { program: "examples/simple.nix".to_string() };
    args.validate();
    assert_eq!(args, Args { program: "examples/simple.nix".to_string() });
    let mut empty = Args::default();
    empty.validate();
    assert_eq!(empty.program, "");
}

#[test]
fn new_backend_is_uninitialized() {
    let backend = backend();
    assert!(backend.get_state() == DebuggerState::Uninitialized);
    assert!(!backend.is_launched());
    assert!(backend.keeps_running(false));
    assert!(!backend.keeps_running(true));
}

#[test]
fn initialize_replies_with_the_advertised_capabilities() {
    let mut backend = backend();
    let step = backend.handle_command(Command::Initialize);
    assert_eq!(step, settled(CommandReply::InitializeReply(advertised_capabilities())));
    assert_eq!(backend.get_state(), DebuggerState::Uninitialized);
    assert!(!backend.is_launched());
    let again = backend.handle_command(Command::Initialize);
    assert_eq!(again, settled(CommandReply::InitializeReply(advertised_capabilities())));
    assert_eq!(backend.get_state(), DebuggerState::Uninitialized);
}

#[test]
fn initialize_advertises_configuration_done_and_nothing_else() {
    let mut backend = backend();
    let step = backend.handle_command(Command::Initialize);
    let mut expected = dawn::capabilities::default_capabilities();
    expected.supports_configuration_done_request = Some(true);
    assert_eq!(step.reply, Some(CommandReply::InitializeReply(expected)));
    assert_eq!(step.spawn, None);
    assert_eq!(step.forward, None);
    assert!(!step.join);
}

#[test]
fn no_command_moves_the_lifecycle_of_the_worker() {
    let commands = vec![
        Command::Initialize,
        Command::Launch("p.nix".to_string()),
        Command::Step,
        Command::Continue,
        Command::Break(Breakpoint::Line(1)),
        Command::Print("x".to_string()),
        Command::Unknown,
        Command::Exit,
        Command::Exit,
    ];
    let mut backend = backend();
    for command in commands {
        backend.handle_command(command);
        assert_eq!(backend.get_state(), DebuggerState::Uninitialized);
        assert!(backend.keeps_running(false));
        assert!(!backend.keeps_running(true));
    }
}

#[test]
fn launch_starts_an_observer_once() {
    let mut backend = backend();
    let step = backend.handle_command(Command::Launch("examples/simple.nix".to_string()));
    assert_eq!(
        step,
        BackendStep {
            spawn: Some("examples/simple.nix".to_string()),
            forward: Some(ObserverCommand::Launch("examples/simple.nix".to_string())),
            join: false,
            reply: None,
        }
    );
    assert!(backend.is_launched());
    let again = backend.handle_command(Command::Launch("other.nix".to_string()));
    assert_eq!(again, settled(CommandReply::NotReady));
    assert!(backend.is_launched());
}

#[test]
fn commands_for_the_program_need_a_launch() {
    for command in [
        Command::Step,
        Command::Continue,
        Command::Break(Breakpoint::Line(3)),
        Command::Print("x".to_string()),
    ] {
        let mut backend = backend();
        assert_eq!(backend.handle_command(command), settled(CommandReply::NotReady));
        assert!(!backend.is_launched());
    }
}

#[test]
fn commands_for_the_program_are_passed_on() {
    let mut backend = launched();
    assert_eq!(backend.handle_command(Command::Step), forwarded(ObserverCommand::Step));
    assert_eq!(backend.handle_command(Command::Continue), forwarded(ObserverCommand::Continue));
    assert_eq!(
        backend.handle_command(Command::Break(Breakpoint::Line(5))),
        forwarded(ObserverCommand::Break(Breakpoint::Line(5)))
    );
    assert_eq!(
        backend.handle_command(Command::Print("f".to_string())),
        forwarded(ObserverCommand::Print("f".to_string()))
    );
    assert!(backend.get_state() == DebuggerState::Uninitialized);
}

#[test]
fn unknown_is_answered_at_once() {
    let mut backend = launched();
    assert_eq!(backend.handle_command(Command::Unknown), settled(CommandReply::UnknownReply));
}

#[test]
fn exit_gives_the_observer_up_and_leaves_the_lifecycle() {
    let mut backend = backend();
    assert_eq!(backend.handle_command(Command::Exit), settled(CommandReply::ExitReply));
    assert_eq!(backend.get_state(), DebuggerState::Uninitialized);

    let mut backend = launched();
    backend.handle_command(Command::Initialize);
    let step = backend.handle_command(Command::Exit);
    assert_eq!(
        step,
        BackendStep { spawn: None, forward: Some(ObserverCommand::Exit), join: true, reply: None }
    );
    assert_eq!(backend.get_state(), DebuggerState::Uninitialized);
    assert!(!backend.is_launched());
    assert_eq!(backend.handle_command(Command::Exit), settled(CommandReply::ExitReply));
    assert_eq!(backend.get_state(), DebuggerState::Uninitialized);
}

#[test]
fn exit_gives_up_the_observer() {
    let mut backend = launched();
    assert!(backend.exit());
    assert!(!backend.is_launched());
    assert!(!backend.exit());
}

#[test]
fn conclude_echoes_a_command_that_was_taken() {
    let taken = Some(ObserverReply::State);
    assert_eq!(TvixBackend::conclude(&Command::Step, taken.clone()), CommandReply::StepReply);
    assert_eq!(
        TvixBackend::conclude(&Command::Continue, taken.clone()),
        CommandReply::ContinueReply
    );
    assert_eq!(
        TvixBackend::conclude(&Command::Launch("p".to_string()), taken.clone()),
        CommandReply::LaunchReply
    );
    assert_eq!(
        TvixBackend::conclude(&Command::Break(Breakpoint::Line(1)), taken.clone()),
        CommandReply::BreakReply
    );
    assert_eq!(TvixBackend::conclude(&Command::Exit, taken), CommandReply::ExitReply);
}

#[test]
fn conclude_carries_the_value_of_a_print() {
    let print = Command::Print("f".to_string());
    assert_eq!(
        TvixBackend::conclude(&print, Some(ObserverReply::Found("<LAMBDA>".to_string()))),
        CommandReply::PrintReply(Some("<LAMBDA>".to_string()))
    );
    assert_eq!(
        TvixBackend::conclude(&print, Some(ObserverReply::NotFound)),
        CommandReply::PrintReply(None)
    );
    assert_eq!(
        TvixBackend::conclude(&print, Some(ObserverReply::State)),
        CommandReply::PrintReply(None)
    );
}

#[test]
fn conclude_reports_refusal_and_termination() {
    for command in [Command::Step, Command::Continue, Command::Print("x".to_string())] {
        assert_eq!(
            TvixBackend::conclude(&command, Some(ObserverReply::NotReady)),
            CommandReply::NotReady
        );
        assert_eq!(
            TvixBackend::conclude(&command, Some(ObserverReply::Done)),
            CommandReply::Terminated
        );
        assert_eq!(TvixBackend::conclude(&command, None), CommandReply::Terminated);
    }
    assert_eq!(TvixBackend::conclude(&Command::Exit, None), CommandReply::ExitReply);
    assert_eq!(
        TvixBackend::conclude(&Command::Exit, Some(ObserverReply::Done)),
        CommandReply::ExitReply
    );
}

#[test]
fn command_and_reply_names() {
    assert_eq!(Command::Exit.name(), "Exit");
    assert_eq!(Command::Launch("x".to_string()).name(), "Launch");
    assert_eq!(Command::Break(Breakpoint::Line(1)).name(), "Break");
    assert_eq!(Command::Unknown.name(), "Unknown");
    assert_eq!(CommandReply::ExitReply.name(), "exit_reply");
    assert_eq!(CommandReply::InitializeReply(advertised_capabilities()).name(), "initialize_reply");
    assert_eq!(CommandReply::PrintReply(None).name(), "print_reply");
    assert_eq!(CommandReply::ContinueReply.name(), "continue_reply");
    assert_eq!(CommandReply::NotReady.name(), "not_ready");
    assert_eq!(CommandReply::Terminated.name(), "terminated");
}

#[test]
fn breakpoint_line() {
    assert_eq!(Breakpoint::Line(12).line(), 12);
    assert_eq!(Breakpoint::FileLine { file: "a.nix".to_string(), line: 3 }.line(), 3);
}
