//! The connection/handshake state machine and ready-payload validation: the
//! full successful walk, every failure edge, and the session identity coming
//! through unchanged.

use discord_ipc_rust::inbound::validate_ready;
use discord_ipc_rust::ipc::handshake_step;
use discord_ipc_rust::ipc::next_action;
use discord_ipc_rust::ipc::HandshakeAction;
use discord_ipc_rust::ipc::HandshakeEvent;
use discord_ipc_rust::ipc::HandshakeState;
use discord_ipc_rust::models::shared::User;
use discord_ipc_rust::DiscordRPCError;

fn sample_user() -> User {
    User {
        id: "1".to_string(),
        username: "u".to_string(),
        avatar: None,
        bot: None,
        flags: None,
        premium_type: None,
    }
}

#[test]
fn the_successful_walk_reaches_ready() {
    let s = HandshakeState::Disconnected;
    assert_eq!(next_action(&s), HandshakeAction::Locate);
    let s = handshake_step(s, HandshakeEvent::Located(Some("/tmp/discord-ipc-0".to_string())));
    assert_eq!(s, HandshakeState::Locating { endpoint: "/tmp/discord-ipc-0".to_string() });
    assert_eq!(next_action(&s), HandshakeAction::OpenChannel);
    let s = handshake_step(s, HandshakeEvent::Opened(true));
    assert_eq!(s, HandshakeState::Opening);
    assert_eq!(next_action(&s), HandshakeAction::SendHandshake);
    let s = handshake_step(s, HandshakeEvent::HandshakeWritten(true));
    assert_eq!(s, HandshakeState::HandshakeSent);
    assert_eq!(next_action(&s), HandshakeAction::ReceiveFirstFrame);
    let s = handshake_step(s, HandshakeEvent::AwaitingFirstFrame);
    assert_eq!(s, HandshakeState::AwaitingReady);
    let s = handshake_step(s, HandshakeEvent::FirstFrame(Ok(sample_user())));
    assert_eq!(s, HandshakeState::Ready { user: sample_user() });
    assert_eq!(next_action(&s), HandshakeAction::Finished);
}

#[test]
fn no_endpoint_means_pipe_not_found() {
    let s = handshake_step(HandshakeState::Disconnected, HandshakeEvent::Located(None));
    assert_eq!(s, HandshakeState::Failed { error: DiscordRPCError::PipeNotFound });
}

#[test]
fn open_failure_is_an_io_failure() {
    let s = HandshakeState::Locating { endpoint: "/tmp/discord-ipc-0".to_string() };
    let s = handshake_step(s, HandshakeEvent::Opened(false));
    assert_eq!(s, HandshakeState::Failed { error: DiscordRPCError::Io });
}

#[test]
fn write_failure_is_an_io_failure() {
    let s = handshake_step(HandshakeState::Opening, HandshakeEvent::HandshakeWritten(false));
    assert_eq!(s, HandshakeState::Failed { error: DiscordRPCError::Io });
}

#[test]
fn a_non_ready_reply_fails_the_connection() {
    let s = handshake_step(
        HandshakeState::AwaitingReady,
        HandshakeEvent::FirstFrame(Err(DiscordRPCError::CouldNotConnect)),
    );
    assert_eq!(s, HandshakeState::Failed { error: DiscordRPCError::CouldNotConnect });
}

#[test]
fn a_ready_reply_captures_the_identity_unchanged() {
    let s = handshake_step(
        HandshakeState::AwaitingReady,
        HandshakeEvent::FirstFrame(Ok(sample_user())),
    );
    assert_eq!(s, HandshakeState::Ready { user: sample_user() });
}

#[test]
fn terminal_states_ignore_further_events() {
    let ready = handshake_step(
        HandshakeState::Ready { user: sample_user() },
        HandshakeEvent::Located(None),
    );
    assert_eq!(ready, HandshakeState::Ready { user: sample_user() });
    let failed = handshake_step(
        HandshakeState::Failed { error: DiscordRPCError::PipeNotFound },
        HandshakeEvent::Opened(true),
    );
    assert_eq!(failed, HandshakeState::Failed { error: DiscordRPCError::PipeNotFound });
}

#[test]
fn mismatched_events_cause_no_transition() {
    let s = handshake_step(HandshakeState::Opening, HandshakeEvent::Located(None));
    assert_eq!(s, HandshakeState::Opening);
    let s = handshake_step(
        HandshakeState::Disconnected,
        HandshakeEvent::FirstFrame(Ok(sample_user())),
    );
    assert_eq!(s, HandshakeState::Disconnected);
}

#[test]
fn mock_ready_payload_yields_the_embedded_identity() {
    let payload = "{\"cmd\":\"READY\",\"data\":{\"v\":1,\"config\":{\"cdn_host\":\"cdn\",\
                   \"api_endpoint\":\"api\",\"environment\":\"production\"},\
                   \"user\":{\"id\":\"1\",\"username\":\"u\"}}}";
    let user = validate_ready(payload).unwrap();
    assert_eq!(user.id, "1");
    assert_eq!(user.username, "u");
    assert_eq!(user.avatar, None);
    let s = handshake_step(HandshakeState::AwaitingReady, HandshakeEvent::FirstFrame(Ok(user)));
    match s {
        HandshakeState::Ready { user } => {
            assert_eq!(user.id, "1");
            assert_eq!(user.username, "u");
        },
        _ => panic!("expected the ready state"),
    }
}

#[test]
fn event_tagged_ready_payloads_also_validate() {
    let payload = "{\"evt\":\"READY\",\"data\":{\"user\":{\"id\":\"9\",\"username\":\"w\",\
                   \"avatar\":\"abc\",\"bot\":false,\"flags\":64,\"premium_type\":1}}}";
    let user = validate_ready(payload).unwrap();
    assert_eq!(user.id, "9");
    assert_eq!(user.username, "w");
    assert_eq!(user.avatar, Some("abc".to_string()));
    assert_eq!(user.bot, Some(false));
    assert_eq!(user.flags, Some(64));
    assert_eq!(user.premium_type, Some(1));
}

#[test]
fn non_ready_payloads_fail_validation() {
    let wrong_tag = "{\"cmd\":\"DISPATCH\",\"data\":{\"user\":{\"id\":\"1\",\"username\":\"u\"}}}";
    assert_eq!(validate_ready(wrong_tag), Err(DiscordRPCError::CouldNotConnect));
    let no_user = "{\"cmd\":\"READY\",\"data\":{\"v\":1}}";
    assert_eq!(validate_ready(no_user), Err(DiscordRPCError::CouldNotConnect));
    let not_json = "hello";
    assert_eq!(validate_ready(not_json), Err(DiscordRPCError::CouldNotConnect));
    let missing_username = "{\"cmd\":\"READY\",\"data\":{\"user\":{\"id\":\"1\"}}}";
    assert_eq!(validate_ready(missing_username), Err(DiscordRPCError::CouldNotConnect));
}
