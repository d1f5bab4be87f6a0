use dawn::client::Client;
use dawn::lifecycle::{DebuggerState, State};
use dawn::messages::{
    Event, EventBody, ExtendedMessageKind, ExtendedProtocolMessage, Outgoing, Response, ResponseBody,
};

const CHAIN: [State; 5] = [
    State::Uninitialized,
    State::Initializing,
    State::Initialized,
    State::ShutDown,
    State::Exited,
];

#[test]
fn states_are_numbered_in_order() {
    for (i, state) in CHAIN.iter().enumerate() {
        assert_eq!(state.index() as usize, i);
        assert_eq!(State::from_index(i as u8), Some(*state));
    }
    assert_eq!(State::from_index(5), None);
    assert_eq!(State::from_index(255), None);
}

#[test]
fn states_are_totally_ordered() {
    assert!(State::Uninitialized < State::Initializing);
    assert!(State::Initializing < State::Initialized);
    assert!(State::Initialized < State::ShutDown);
    assert!(State::ShutDown < State::Exited);
    assert!(DebuggerState::Uninitialized < DebuggerState::ShutDown);
    for a in CHAIN {
        for b in CHAIN {
            assert_eq!(a.before(b), a < b);
            assert_eq!(a.before(b), a.index() < b.index());
        }
    }
}

#[test]
fn successor_walks_the_chain() {
    assert_eq!(State::Uninitialized.successor(), Some(State::Initializing));
    assert_eq!(State::Initializing.successor(), Some(State::Initialized));
    assert_eq!(State::Initialized.successor(), Some(State::ShutDown));
    assert_eq!(State::ShutDown.successor(), Some(State::Exited));
    assert_eq!(State::Exited.successor(), None);
}

#[test]
fn precedes_is_one_step_forward() {
    for a in CHAIN {
        for b in CHAIN {
            assert_eq!(a.precedes(b), b.index() == a.index() + 1, "{:?} -> {:?}", a, b);
        }
    }
}

#[test]
fn live_until_shut_down() {
    assert!(State::Uninitialized.is_live());
    assert!(State::Initializing.is_live());
    assert!(State::Initialized.is_live());
    assert!(!State::ShutDown.is_live());
    assert!(!State::Exited.is_live());
    assert!(DebuggerState::Uninitialized.is_live());
    assert!(DebuggerState::Initializing.is_live());
    assert!(DebuggerState::Initialized.is_live());
    assert!(!DebuggerState::ShutDown.is_live());
    assert!(!DebuggerState::Exited.is_live());
    assert_eq!(DebuggerState::Uninitialized.index(), 0);
    assert_eq!(DebuggerState::ShutDown.index(), 3);
    assert_eq!(DebuggerState::Exited.index(), 4);
}

#[test]
fn new_client_is_uninitialized_and_starts_at_zero() {
    let client = Client::new();
    assert_eq!(client.get_state(), State::Uninitialized);
    assert_eq!(client.send_seq, 0);
}

#[test]
fn set_state_moves_one_step_forward_only() {
    let mut client = Client::new();
    client.set_state(State::Initialized);
    assert_eq!(client.get_state(), State::Uninitialized, "a skip is refused");
    client.set_state(State::Uninitialized);
    assert_eq!(client.get_state(), State::Uninitialized, "staying is refused");
    client.set_state(State::Initializing);
    assert_eq!(client.get_state(), State::Initializing);
    client.set_state(State::Uninitialized);
    assert_eq!(client.get_state(), State::Initializing, "a regression is refused");
    client.set_state(State::Initialized);
    assert_eq!(client.get_state(), State::Initialized);
    client.set_state(State::Exited);
    assert_eq!(client.get_state(), State::Initialized);
    client.set_state(State::ShutDown);
    assert_eq!(client.get_state(), State::ShutDown);
    client.set_state(State::Exited);
    assert_eq!(client.get_state(), State::Exited);
    client.set_state(State::Exited);
    assert_eq!(client.get_state(), State::Exited);
}

#[test]
fn lifecycle_never_decreases_under_any_target() {
    for start in CHAIN {
        for target in CHAIN {
            let mut client = Client { state: start, send_seq: 7 };
            client.set_state(target);
            assert!(client.get_state() >= start);
            assert_eq!(client.send_seq, 7);
        }
    }
}

#[test]
fn shut_down_reaches_shut_down_from_every_live_state() {
    for start in CHAIN {
        let mut client = Client { state: start, send_seq: 3 };
        client.shut_down();
        let expected = if start < State::ShutDown { State::ShutDown } else { start };
        assert_eq!(client.get_state(), expected);
        assert_eq!(client.send_seq, 3);
    }
}

#[test]
fn send_numbers_envelopes_from_zero_without_gaps() {
    let mut client = Client::new();
    for expected in 0..10i64 {
        let envelope = if expected % 2 == 0 {
            client.send(Outgoing::Event(EventBody::Initialized))
        } else {
            client.send(Outgoing::Response(Response::success(expected, ResponseBody::Launch)))
        };
        assert_eq!(envelope.seq, expected);
        assert_eq!(client.send_seq, expected + 1);
    }
    assert_eq!(client.get_state(), State::Uninitialized);
}

#[test]
fn send_wraps_events_and_responses() {
    let mut client = Client::new();
    let event = client.send(Outgoing::Event(EventBody::Terminated));
    assert_eq!(
        event,
        ExtendedProtocolMessage {
            seq: 0,
            message: ExtendedMessageKind::Event(Event { body: Some(EventBody::Terminated) }),
        }
    );
    let response = Response::failure(41, "unsupported request");
    let sent = client.send(Outgoing::Response(response.clone()));
    assert_eq!(
        sent,
        ExtendedProtocolMessage { seq: 1, message: ExtendedMessageKind::Response(response) }
    );
    assert!(!sent.is_request());
}

#[test]
fn response_constructors() {
    let ok = Response::success(5, ResponseBody::ConfigurationDone);
    assert_eq!(
        ok,
        Response {
            request_seq: 5,
            success: true,
            message: None,
            body: Some(ResponseBody::ConfigurationDone),
        }
    );
    let bad = Response::failure(6, "Root file must be specified");
    assert_eq!(
        bad,
        Response {
            request_seq: 6,
            success: false,
            message: Some("Root file must be specified".to_string()),
            body: None,
        }
    );
}
