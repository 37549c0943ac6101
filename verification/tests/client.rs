use boop::client::{resolve_name, Client, ClientAction, ClientError, ClientEvent, ClientState};

fn everyone() -> Client {
    Client::new(None)
}

fn to(name: &str) -> Client {
    Client::new(Some(name.to_string()))
}

#[test]
fn client_starts_at_start() {
    assert_eq!(Client::start(), ClientState::Start);
}

#[test]
fn opened_client_asks_for_its_name() {
    assert_eq!(
        everyone().step(ClientState::Start, &ClientEvent::Opened),
        (
            ClientState::NameResolution,
            ClientAction::Query(b"get-name".to_vec())
        )
    );
}

#[test]
fn named_client_boops_everyone() {
    assert_eq!(
        everyone().step(
            ClientState::NameResolution,
            &ClientEvent::Reply(b"Cleo".to_vec())
        ),
        (
            ClientState::Broadcasting,
            ClientAction::Broadcast(b"boop Cleo".to_vec())
        )
    );
}

#[test]
fn named_client_boops_its_target() {
    assert_eq!(
        to("Rex").step(
            ClientState::NameResolution,
            &ClientEvent::Reply(b"Cleo".to_vec())
        ),
        (
            ClientState::Broadcasting,
            ClientAction::Broadcast(b"boop Cleo->Rex".to_vec())
        )
    );
}

#[test]
fn sent_client_is_done() {
    assert_eq!(
        everyone().step(ClientState::Broadcasting, &ClientEvent::Sent),
        (ClientState::Done, ClientAction::Halt)
    );
}

#[test]
fn client_runs_from_start_to_done() {
    let client = to("Rex");
    let (state, action) = client.step(Client::start(), &ClientEvent::Opened);
    assert_eq!(action, ClientAction::Query(b"get-name".to_vec()));
    let (state, action) = client.step(state, &ClientEvent::Reply(b"Cleo".to_vec()));
    assert_eq!(action, ClientAction::Broadcast(b"boop Cleo->Rex".to_vec()));
    let (state, action) = client.step(state, &ClientEvent::Sent);
    assert_eq!((state, action), (ClientState::Done, ClientAction::Halt));
}

#[test]
fn fault_fails_the_client() {
    for state in [
        ClientState::Start,
        ClientState::NameResolution,
        ClientState::Broadcasting,
    ] {
        assert_eq!(
            everyone().step(state, &ClientEvent::Fault),
            (
                ClientState::Failed,
                ClientAction::Report(ClientError::Transport)
            )
        );
    }
}

#[test]
fn final_client_states_stay() {
    for state in [ClientState::Done, ClientState::Failed] {
        for event in [
            ClientEvent::Opened,
            ClientEvent::Reply(b"Cleo".to_vec()),
            ClientEvent::Sent,
            ClientEvent::Fault,
        ] {
            assert_eq!(everyone().step(state, &event), (state, ClientAction::Halt));
        }
    }
}

#[test]
fn event_out_of_turn_changes_nothing() {
    let reply = ClientEvent::Reply(b"Cleo".to_vec());
    assert_eq!(
        everyone().step(ClientState::Start, &reply),
        (ClientState::Start, ClientAction::Idle)
    );
    assert_eq!(
        everyone().step(ClientState::Start, &ClientEvent::Sent),
        (ClientState::Start, ClientAction::Idle)
    );
    assert_eq!(
        everyone().step(ClientState::NameResolution, &ClientEvent::Opened),
        (ClientState::NameResolution, ClientAction::Idle)
    );
    assert_eq!(
        everyone().step(ClientState::NameResolution, &ClientEvent::Sent),
        (ClientState::NameResolution, ClientAction::Idle)
    );
    assert_eq!(
        everyone().step(ClientState::Broadcasting, &ClientEvent::Opened),
        (ClientState::Broadcasting, ClientAction::Idle)
    );
    assert_eq!(
        everyone().step(ClientState::Broadcasting, &reply),
        (ClientState::Broadcasting, ClientAction::Idle)
    );
}

#[test]
fn name_too_long_for_a_datagram_fails_the_client() {
    let name = vec![b'n'; 508];
    assert_eq!(
        everyone().step(ClientState::NameResolution, &ClientEvent::Reply(name)),
        (
            ClientState::Failed,
            ClientAction::Report(ClientError::TooLong)
        )
    );
}

#[test]
fn longest_name_still_fits() {
    let name = vec![b'n'; 507];
    let mut datagram = b"boop ".to_vec();
    datagram.extend_from_slice(&name);
    assert_eq!(
        everyone().step(ClientState::NameResolution, &ClientEvent::Reply(name)),
        (ClientState::Broadcasting, ClientAction::Broadcast(datagram))
    );
}

#[test]
fn announce_takes_the_name_as_it_is() {
    assert_eq!(
        to("Rex").announce("Cleo"),
        (
            ClientState::Broadcasting,
            ClientAction::Broadcast(b"boop Cleo->Rex".to_vec())
        )
    );
    assert_eq!(
        everyone().announce("Zoë"),
        (
            ClientState::Broadcasting,
            ClientAction::Broadcast("boop Zoë".as_bytes().to_vec())
        )
    );
    assert_eq!(
        to(&"r".repeat(506)).announce("C"),
        (
            ClientState::Failed,
            ClientAction::Report(ClientError::TooLong)
        )
    );
}

#[test]
fn resolved_name_is_the_text_of_the_reply() {
    assert_eq!(resolve_name(b"Cleo"), "Cleo");
    assert_eq!(resolve_name("Zoë 猫".as_bytes()), "Zoë 猫");
    assert_eq!(resolve_name(b""), "");
}

#[test]
fn resolved_name_replaces_what_is_not_utf8() {
    assert_eq!(resolve_name(b"Cl\xffeo"), "Cl\u{fffd}eo");
    assert_eq!(resolve_name(b"\xc3"), "\u{fffd}");
    assert_eq!(resolve_name(b"Cleo\xf0\x9f\x98"), "Cleo\u{fffd}");
}

#[test]
fn lossy_name_goes_into_the_notification() {
    assert_eq!(
        everyone().step(
            ClientState::NameResolution,
            &ClientEvent::Reply(b"Cl\xffeo".to_vec())
        ),
        (
            ClientState::Broadcasting,
            ClientAction::Broadcast("boop Cl\u{fffd}eo".as_bytes().to_vec())
        )
    );
}
