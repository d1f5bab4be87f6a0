use dawn::commands::{Breakpoint, ObserverCommand, ObserverReply};
use dawn::observer::{DebugObserver, Frame, Mode, StackValue};

fn closure(name: &str, shown: &str) -> StackValue {
    StackValue::Closure { name: Some(name.to_string()), shown: shown.to_string() }
}

fn launched() -> DebugObserver {
    let mut observer = DebugObserver::new();
    let handled = observer.handle_command(&ObserverCommand::Launch("p.nix".to_string()));
    assert!(handled.resume);
    observer
}

#[test]
fn new_observer_waits() {
    let observer = DebugObserver::new();
    assert_eq!(observer.mode(), Mode::Waiting);
    assert!(!observer.has_breakpoint(1));
    assert_eq!(observer.handle_print(&"x".to_string()), None);
}

#[test]
fn launch_takes_a_waiting_program_to_stepping() {
    let mut observer = DebugObserver::new();
    let handled = observer.handle_command(&ObserverCommand::Launch("a.nix".to_string()));
    assert_eq!(handled.reply, ObserverReply::State);
    assert!(handled.resume);
    assert_eq!(observer.mode(), Mode::Stepping);
}

#[test]
fn launch_is_refused_past_waiting() {
    for first in [ObserverCommand::Step, ObserverCommand::Continue] {
        let mut observer = launched();
        observer.handle_command(&first);
        let before = observer.mode();
        let handled = observer.handle_command(&ObserverCommand::Launch("b.nix".to_string()));
        assert_eq!(handled.reply, ObserverReply::NotReady);
        assert!(!handled.resume);
        assert_eq!(observer.mode(), before);
    }
}

#[test]
fn step_and_continue_need_a_launched_program() {
    for command in [ObserverCommand::Step, ObserverCommand::Continue] {
        let mut observer = DebugObserver::new();
        let handled = observer.handle_command(&command);
        assert_eq!(handled.reply, ObserverReply::NotReady);
        assert!(!handled.resume);
        assert_eq!(observer.mode(), Mode::Waiting);
    }
}

#[test]
fn step_and_continue_switch_the_mode() {
    let mut observer = launched();
    let handled = observer.handle_command(&ObserverCommand::Continue);
    assert!(handled.resume);
    assert_eq!(handled.reply, ObserverReply::State);
    assert_eq!(observer.mode(), Mode::Running);
    let handled = observer.handle_command(&ObserverCommand::Step);
    assert!(handled.resume);
    assert_eq!(observer.mode(), Mode::Stepping);
    let handled = observer.handle_command(&ObserverCommand::Step);
    assert!(handled.resume);
    assert_eq!(observer.mode(), Mode::Stepping);
}

#[test]
fn a_waiting_program_takes_a_launch_and_nothing_else() {
    for command in [
        ObserverCommand::Exit,
        ObserverCommand::Wait,
        ObserverCommand::Done,
        ObserverCommand::Continue,
        ObserverCommand::Step,
        ObserverCommand::Break(Breakpoint::Line(5)),
        ObserverCommand::Break(Breakpoint::FileLine { file: "a.nix".to_string(), line: 5 }),
        ObserverCommand::Print("x".to_string()),
    ] {
        let mut observer = DebugObserver::new();
        let handled = observer.handle_command(&command);
        assert_eq!(handled.reply, ObserverReply::NotReady, "{:?}", command);
        assert!(!handled.resume, "{:?}", command);
        assert_eq!(observer.mode(), Mode::Waiting, "{:?}", command);
        assert!(!observer.has_breakpoint(5), "{:?}", command);
        let handled = observer.handle_command(&ObserverCommand::Launch("p.nix".to_string()));
        assert_eq!(handled.reply, ObserverReply::State);
        assert!(handled.resume);
        assert_eq!(observer.mode(), Mode::Stepping);
        let handled = observer.handle_command(&ObserverCommand::Launch("p.nix".to_string()));
        assert_eq!(handled.reply, ObserverReply::NotReady);
        assert!(!handled.resume);
        assert_eq!(observer.mode(), Mode::Stepping);
    }
}

#[test]
fn nothing_fires_or_is_armed_while_the_program_waits() {
    let mut observer = launched();
    observer.handle_command(&ObserverCommand::Break(Breakpoint::Line(5)));
    observer.set_cmd(&ObserverCommand::Wait);
    assert!(observer.observe_execute_op(5), "a waiting program is held");
    assert_eq!(observer.mode(), Mode::Waiting);
    assert!(observer.has_breakpoint(5), "and no breakpoint fires while it waits");
    let handled = observer.handle_command(&ObserverCommand::Break(Breakpoint::Line(6)));
    assert_eq!(handled.reply, ObserverReply::NotReady);
    assert!(!observer.has_breakpoint(6));
}

#[test]
fn exit_is_taken_in_every_mode_past_waiting() {
    for mode in [
        ObserverCommand::Step,
        ObserverCommand::Continue,
        ObserverCommand::Done,
        ObserverCommand::Exit,
    ] {
        let mut observer = DebugObserver::new();
        observer.set_cmd(&mode);
        let handled = observer.handle_command(&ObserverCommand::Exit);
        assert_eq!(handled.reply, ObserverReply::State);
        assert!(handled.resume);
        assert_eq!(observer.mode(), Mode::Exiting);
    }
}

#[test]
fn set_cmd_puts_the_program_into_the_mode() {
    let mut observer = DebugObserver::new();
    observer.set_cmd(&ObserverCommand::Step);
    assert_eq!(observer.mode(), Mode::Stepping);
    observer.set_cmd(&ObserverCommand::Continue);
    assert_eq!(observer.mode(), Mode::Running);
    observer.set_cmd(&ObserverCommand::Print("x".to_string()));
    assert_eq!(observer.mode(), Mode::Running);
    observer.set_cmd(&ObserverCommand::Break(Breakpoint::Line(3)));
    assert_eq!(observer.mode(), Mode::Running);
    assert!(!observer.has_breakpoint(3));
    observer.set_cmd(&ObserverCommand::Launch("p".to_string()));
    assert_eq!(observer.mode(), Mode::Stepping);
    observer.set_cmd(&ObserverCommand::Done);
    assert_eq!(observer.mode(), Mode::Done);
    observer.set_cmd(&ObserverCommand::Wait);
    assert_eq!(observer.mode(), Mode::Waiting);
    observer.set_cmd(&ObserverCommand::Exit);
    assert_eq!(observer.mode(), Mode::Exiting);
}

#[test]
fn a_finished_program_absorbs_commands_until_exit() {
    let mut observer = launched();
    observer.set_cmd(&ObserverCommand::Done);
    for command in [
        ObserverCommand::Step,
        ObserverCommand::Continue,
        ObserverCommand::Break(Breakpoint::Line(9)),
        ObserverCommand::Print("f".to_string()),
        ObserverCommand::Wait,
        ObserverCommand::Done,
    ] {
        let handled = observer.handle_command(&command);
        assert_eq!(handled.reply, ObserverReply::Done);
        assert!(!handled.resume);
        assert_eq!(observer.mode(), Mode::Done);
    }
    let handled = observer.handle_command(&ObserverCommand::Launch("x".to_string()));
    assert_eq!(handled.reply, ObserverReply::NotReady, "a launch past waiting is refused");
    assert!(!handled.resume);
    assert_eq!(observer.mode(), Mode::Done);
    assert!(!observer.has_breakpoint(9));
    let handled = observer.handle_command(&ObserverCommand::Exit);
    assert!(handled.resume);
    assert_eq!(observer.mode(), Mode::Exiting);
}

#[test]
fn break_arms_a_line_and_does_not_resume() {
    let mut observer = launched();
    let handled = observer.handle_command(&ObserverCommand::Break(Breakpoint::Line(5)));
    assert_eq!(handled.reply, ObserverReply::State);
    assert!(!handled.resume);
    assert!(observer.has_breakpoint(5));
    assert!(!observer.has_breakpoint(4));
    let handled = observer.handle_command(&ObserverCommand::Break(Breakpoint::FileLine {
        file: "a.nix".to_string(),
        line: 8,
    }));
    assert!(!handled.resume);
    assert!(observer.has_breakpoint(8));
    assert_eq!(observer.mode(), Mode::Stepping);
}

#[test]
fn break_is_refused_before_launch() {
    let mut observer = DebugObserver::new();
    let handled = observer.handle_command(&ObserverCommand::Break(Breakpoint::Line(2)));
    assert_eq!(handled.reply, ObserverReply::NotReady);
    assert!(!handled.resume);
    assert!(!observer.has_breakpoint(2));
    assert_eq!(observer.mode(), Mode::Waiting);
}

#[test]
fn a_closed_channel_is_the_order_to_leave() {
    for mode in [
        ObserverCommand::Wait,
        ObserverCommand::Step,
        ObserverCommand::Continue,
        ObserverCommand::Done,
        ObserverCommand::Exit,
    ] {
        let mut observer = DebugObserver::new();
        observer.set_cmd(&mode);
        let handled = observer.handle_closed();
        assert!(handled.resume, "the evaluator is let go");
        assert_eq!(handled.reply, ObserverReply::State);
        assert_eq!(observer.mode(), Mode::Exiting);
        assert!(!observer.observe_execute_op(1), "and is not held again");
        assert_eq!(observer.mode(), Mode::Exiting);
    }
}

#[test]
fn a_closed_channel_keeps_breakpoints_and_snapshot() {
    let mut observer = launched();
    observer.handle_command(&ObserverCommand::Break(Breakpoint::Line(5)));
    observer.observe_exit_call_frame(vec![closure("f", "<f>")]);
    observer.handle_closed();
    assert!(observer.has_breakpoint(5));
    assert_eq!(observer.handle_print(&"f".to_string()), Some("<f>".to_string()));
    assert!(!observer.observe_execute_op(5));
    assert!(observer.has_breakpoint(5));
}

#[test]
fn arming_an_armed_line_changes_nothing() {
    let mut observer = launched();
    observer.handle_command(&ObserverCommand::Break(Breakpoint::Line(5)));
    let again = observer.handle_command(&ObserverCommand::Break(Breakpoint::Line(5)));
    assert_eq!(again.reply, ObserverReply::State);
    assert!(!again.resume);
    assert!(observer.has_breakpoint(5));
    observer.set_cmd(&ObserverCommand::Continue);
    assert!(observer.observe_execute_op(5));
    assert!(!observer.has_breakpoint(5));
    observer.set_cmd(&ObserverCommand::Continue);
    assert!(!observer.observe_execute_op(5), "armed twice, it still fires once");
}

#[test]
fn a_breakpoint_fires_once() {
    let mut observer = launched();
    observer.handle_command(&ObserverCommand::Break(Breakpoint::Line(7)));
    observer.handle_command(&ObserverCommand::Continue);
    assert!(!observer.observe_execute_op(6));
    assert_eq!(observer.mode(), Mode::Running);
    assert!(observer.has_breakpoint(7));
    assert!(observer.observe_execute_op(7));
    assert_eq!(observer.mode(), Mode::Stepping);
    assert!(!observer.has_breakpoint(7));
    observer.handle_command(&ObserverCommand::Continue);
    assert!(!observer.observe_execute_op(7));
    assert_eq!(observer.mode(), Mode::Running);
}

#[test]
fn a_waiting_or_stepping_program_pauses_at_every_op() {
    let mut observer = DebugObserver::new();
    assert!(observer.observe_execute_op(1));
    assert_eq!(observer.mode(), Mode::Waiting);
    let mut observer = launched();
    assert!(observer.observe_execute_op(1));
    assert!(observer.observe_execute_op(2));
    assert_eq!(observer.mode(), Mode::Stepping);
}

#[test]
fn a_running_program_pauses_at_breakpoints_only() {
    let mut observer = launched();
    observer.handle_command(&ObserverCommand::Break(Breakpoint::Line(5)));
    observer.handle_command(&ObserverCommand::Continue);
    for line in [1usize, 2, 3, 4, 6, 100] {
        assert!(!observer.observe_execute_op(line));
        assert_eq!(observer.mode(), Mode::Running);
    }
    assert!(observer.observe_execute_op(5));
    assert_eq!(observer.mode(), Mode::Stepping);
}

#[test]
fn a_finished_or_exiting_program_never_pauses() {
    for mode in [ObserverCommand::Done, ObserverCommand::Exit] {
        let mut observer = launched();
        observer.handle_command(&ObserverCommand::Break(Breakpoint::Line(5)));
        observer.set_cmd(&mode);
        let before = observer.mode();
        assert!(!observer.observe_execute_op(5));
        assert!(!observer.observe_execute_op(6));
        assert_eq!(observer.mode(), before);
        assert!(observer.has_breakpoint(5));
    }
}

#[test]
fn breakpoint_hit_scenario() {
    let mut observer = launched();
    let replies = observer.drain(&vec![
        ObserverCommand::Break(Breakpoint::Line(5)),
        ObserverCommand::Continue,
    ]);
    assert_eq!(replies.replies, vec![ObserverReply::State, ObserverReply::State]);
    assert!(replies.resumed);
    assert_eq!(observer.mode(), Mode::Running);
    assert!(!observer.observe_execute_op(3));
    assert!(!observer.observe_execute_op(4));
    assert!(observer.observe_execute_op(5), "the breakpoint fires");
    assert_eq!(observer.mode(), Mode::Stepping);
    let handled = observer.handle_command(&ObserverCommand::Step);
    assert!(handled.resume);
    assert_eq!(handled.reply, ObserverReply::State);
    assert!(observer.observe_execute_op(5), "stepping pauses at the next op");
    assert!(!observer.has_breakpoint(5));
    observer.handle_command(&ObserverCommand::Continue);
    assert!(!observer.observe_execute_op(5), "the breakpoint does not fire again");
    observer.handle_command(&ObserverCommand::Break(Breakpoint::Line(5)));
    assert!(observer.observe_execute_op(5), "re-armed, it fires again");
}

#[test]
fn a_breakpoint_fires_while_stepping_too() {
    let mut observer = launched();
    observer.handle_command(&ObserverCommand::Break(Breakpoint::Line(5)));
    assert!(observer.observe_execute_op(5));
    assert!(!observer.has_breakpoint(5));
}

#[test]
fn print_finds_the_entered_function_first() {
    let mut observer = launched();
    observer.observe_enter_call_frame(Frame {
        name: Some("f".to_string()),
        shown: "<frame f>".to_string(),
    });
    observer.observe_exit_call_frame(vec![closure("f", "<stack f>")]);
    assert_eq!(observer.handle_print(&"f".to_string()), Some("<frame f>".to_string()));
    let handled = observer.handle_command(&ObserverCommand::Print("f".to_string()));
    assert_eq!(handled.reply, ObserverReply::Found("<frame f>".to_string()));
    assert!(!handled.resume);
    assert_eq!(observer.mode(), Mode::Stepping);
}

#[test]
fn print_takes_the_topmost_match_on_the_stack() {
    let mut observer = launched();
    observer.observe_enter_call_frame(Frame { name: None, shown: "<anonymous>".to_string() });
    observer.observe_exit_call_frame(vec![
        closure("g", "<g low>"),
        StackValue::Other,
        closure("h", "<h>"),
        closure("g", "<g high>"),
        StackValue::Thunk,
        StackValue::Closure { name: None, shown: "<nameless>".to_string() },
    ]);
    assert_eq!(observer.handle_print(&"g".to_string()), Some("<g high>".to_string()));
    assert_eq!(observer.handle_print(&"h".to_string()), Some("<h>".to_string()));
    assert_eq!(observer.handle_print(&"k".to_string()), None);
    assert_eq!(observer.handle_print(&"".to_string()), None);
    let handled = observer.handle_command(&ObserverCommand::Print("k".to_string()));
    assert_eq!(handled.reply, ObserverReply::NotFound);
    assert!(!handled.resume);
}

#[test]
fn print_passes_over_thunks_and_other_values() {
    let mut observer = launched();
    observer.observe_enter_generator(vec![StackValue::Thunk, StackValue::Other]);
    assert_eq!(observer.handle_print(&"x".to_string()), None);
}

#[test]
fn the_stack_snapshot_is_replaced_at_each_observation() {
    let mut observer = launched();
    observer.observe_enter_generator(vec![closure("a", "1")]);
    assert_eq!(observer.handle_print(&"a".to_string()), Some("1".to_string()));
    observer.observe_exit_generator(vec![closure("b", "2")]);
    assert_eq!(observer.handle_print(&"a".to_string()), None);
    assert_eq!(observer.handle_print(&"b".to_string()), Some("2".to_string()));
    observer.observe_suspend_generator(vec![]);
    assert_eq!(observer.handle_print(&"b".to_string()), None);
    observer.observe_exit_call_frame(vec![closure("c", "3")]);
    assert_eq!(observer.handle_print(&"c".to_string()), Some("3".to_string()));
    observer.observe_enter_call_frame(Frame { name: Some("c".to_string()), shown: "4".to_string() });
    assert_eq!(observer.handle_print(&"c".to_string()), Some("4".to_string()));
}

#[test]
fn drain_stops_at_the_first_command_that_resumes() {
    let mut observer = launched();
    let commands = vec![
        ObserverCommand::Break(Breakpoint::Line(1)),
        ObserverCommand::Print("nothing".to_string()),
        ObserverCommand::Launch("again".to_string()),
        ObserverCommand::Continue,
        ObserverCommand::Break(Breakpoint::Line(2)),
        ObserverCommand::Step,
    ];
    let drained = observer.drain(&commands);
    assert!(drained.resumed);
    assert_eq!(
        drained.replies,
        vec![
            ObserverReply::State,
            ObserverReply::NotFound,
            ObserverReply::NotReady,
            ObserverReply::State,
        ]
    );
    assert_eq!(observer.mode(), Mode::Running);
    assert!(observer.has_breakpoint(1));
    assert!(!observer.has_breakpoint(2));
}

#[test]
fn drain_takes_everything_where_nothing_resumes() {
    let mut observer = launched();
    let commands = vec![
        ObserverCommand::Break(Breakpoint::Line(1)),
        ObserverCommand::Break(Breakpoint::Line(2)),
        ObserverCommand::Wait,
    ];
    let drained = observer.drain(&commands);
    assert!(!drained.resumed);
    assert_eq!(drained.replies.len(), 3);
    assert_eq!(observer.mode(), Mode::Stepping);
    let drained = observer.drain(&vec![]);
    assert!(!drained.resumed);
    assert!(drained.replies.is_empty());
}
