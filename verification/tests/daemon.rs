use boop::daemon::{Daemon, DaemonAction, DaemonError, DaemonEvent, DaemonState};
use boop::wire::MessageKind;

fn notification(sender: &str, recipient: Option<&str>) -> MessageKind {
    MessageKind::Notification {
        sender: sender.to_string(),
        recipient: recipient.map(|r| r.to_string()),
    }
}

fn alice() -> Daemon {
    Daemon::new("Alice".to_string())
}

#[test]
fn daemon_keeps_its_name() {
    assert_eq!(alice().name(), "Alice");
}

#[test]
fn daemon_starts_bound() {
    assert_eq!(Daemon::start(), DaemonState::Bound);
}

#[test]
fn boop_for_alice_is_announced_to_alice() {
    assert_eq!(
        alice().react(&notification("Bob", Some("Alice"))),
        DaemonAction::Announce("Bob is booping you!".to_string())
    );
}

#[test]
fn boop_for_everyone_is_announced_to_alice() {
    assert_eq!(
        alice().react(&notification("Bob", None)),
        DaemonAction::Announce("Bob is booping everyone!!!".to_string())
    );
}

#[test]
fn boop_for_carol_is_not_announced_to_alice() {
    assert_eq!(
        alice().react(&notification("Bob", Some("Carol"))),
        DaemonAction::Idle
    );
}

#[test]
fn recipient_must_match_exactly() {
    for other in ["alice", "Alice ", " Alice", "Alic", "Alice2", ""] {
        assert_eq!(
            alice().react(&notification("Bob", Some(other))),
            DaemonAction::Idle
        );
    }
}

#[test]
fn query_is_answered_with_the_name() {
    assert_eq!(
        alice().react(&MessageKind::Query),
        DaemonAction::Reply(b"Alice".to_vec())
    );
}

#[test]
fn query_is_answered_with_the_bytes_of_any_name() {
    for name in ["Rex", "Zoë", "猫 😀", "a->b", ""] {
        let daemon = Daemon::new(name.to_string());
        assert_eq!(
            daemon.handle(b"get-name"),
            DaemonAction::Reply(name.as_bytes().to_vec())
        );
    }
}

#[test]
fn unrecognized_is_dropped() {
    assert_eq!(alice().react(&MessageKind::Unrecognized), DaemonAction::Idle);
}

#[test]
fn handle_reads_the_datagram() {
    assert_eq!(
        alice().handle(b"boop Bob->Alice"),
        DaemonAction::Announce("Bob is booping you!".to_string())
    );
    assert_eq!(
        alice().handle(b"boop Bob"),
        DaemonAction::Announce("Bob is booping everyone!!!".to_string())
    );
    assert_eq!(alice().handle(b"boop Bob->Carol"), DaemonAction::Idle);
    assert_eq!(alice().handle(b"hello world"), DaemonAction::Idle);
}

#[test]
fn handle_announces_an_empty_sender() {
    assert_eq!(
        alice().handle(b"boop ->Alice"),
        DaemonAction::Announce(" is booping you!".to_string())
    );
}

#[test]
fn second_arrow_belongs_to_the_recipient() {
    let daemon = Daemon::new("b".to_string());
    assert_eq!(daemon.handle(b"boop a->b->c"), DaemonAction::Idle);
    let daemon = Daemon::new("b->c".to_string());
    assert_eq!(
        daemon.handle(b"boop a->b->c"),
        DaemonAction::Announce("a is booping you!".to_string())
    );
}

#[test]
fn ready_starts_the_listening() {
    assert_eq!(
        alice().step(DaemonState::Bound, &DaemonEvent::Ready),
        (DaemonState::Listening, DaemonAction::Idle)
    );
    assert_eq!(
        alice().step(DaemonState::Listening, &DaemonEvent::Ready),
        (DaemonState::Listening, DaemonAction::Idle)
    );
}

#[test]
fn datagram_before_listening_is_dropped() {
    assert_eq!(
        alice().step(DaemonState::Bound, &DaemonEvent::Datagram(b"get-name".to_vec())),
        (DaemonState::Bound, DaemonAction::Idle)
    );
}

#[test]
fn listening_daemon_answers_and_listens_on() {
    assert_eq!(
        alice().step(
            DaemonState::Listening,
            &DaemonEvent::Datagram(b"get-name".to_vec())
        ),
        (DaemonState::Listening, DaemonAction::Reply(b"Alice".to_vec()))
    );
}

#[test]
fn listening_daemon_announces_and_listens_on() {
    assert_eq!(
        alice().step(
            DaemonState::Listening,
            &DaemonEvent::Datagram(b"boop Bob->Alice".to_vec())
        ),
        (
            DaemonState::Listening,
            DaemonAction::Announce("Bob is booping you!".to_string())
        )
    );
}

#[test]
fn short_datagram_is_dropped_and_the_daemon_listens_on() {
    for datagram in [&b""[..], b"b", b"boop ", b"get-n", b"\xff"] {
        assert_eq!(
            alice().step(
                DaemonState::Listening,
                &DaemonEvent::Datagram(datagram.to_vec())
            ),
            (DaemonState::Listening, DaemonAction::Idle)
        );
    }
}

#[test]
fn non_utf8_datagram_is_dropped_and_the_daemon_listens_on() {
    for datagram in [&b"boop \xff\xfe\xfd"[..], b"get-name\xff", b"boop Bob->Alice\xc3"] {
        assert_eq!(
            alice().step(
                DaemonState::Listening,
                &DaemonEvent::Datagram(datagram.to_vec())
            ),
            (DaemonState::Listening, DaemonAction::Idle)
        );
    }
}

#[test]
fn fault_fails_and_is_reported() {
    for state in [DaemonState::Bound, DaemonState::Listening] {
        for error in [
            DaemonError::Bind,
            DaemonError::Transport,
            DaemonError::Announce,
        ] {
            assert_eq!(
                alice().step(state, &DaemonEvent::Fault(error)),
                (DaemonState::Failed, DaemonAction::Report(error))
            );
        }
    }
}

#[test]
fn shutdown_stops() {
    for state in [DaemonState::Bound, DaemonState::Listening] {
        assert_eq!(
            alice().step(state, &DaemonEvent::Shutdown),
            (DaemonState::Stopped, DaemonAction::Halt)
        );
    }
}

#[test]
fn final_states_stay() {
    for state in [DaemonState::Stopped, DaemonState::Failed] {
        for event in [
            DaemonEvent::Ready,
            DaemonEvent::Datagram(b"get-name".to_vec()),
            DaemonEvent::Fault(DaemonError::Transport),
            DaemonEvent::Shutdown,
        ] {
            assert_eq!(alice().step(state, &event), (state, DaemonAction::Halt));
        }
    }
}
