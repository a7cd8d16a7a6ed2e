//! Inbound classification and the receive loop's decisions: arrival order,
//! resilience to malformed frames, and termination only on channel failure.

use discord_ipc_rust::inbound::classify_payload;
use discord_ipc_rust::inbound::dispatch_in_order;
use discord_ipc_rust::inbound::loop_step;
use discord_ipc_rust::inbound::process_payloads;
use discord_ipc_rust::inbound::LoopAction;
use discord_ipc_rust::inbound::RecvOutcome;
use discord_ipc_rust::models::receive::ReceivedItem;
use discord_ipc_rust::DiscordRPCError;

#[test]
fn event_payloads_classify_as_events() {
    let payload = "{\"evt\":\"MESSAGE_CREATE\",\"data\":{\"channel_id\":\"c\"}}";
    let item = classify_payload(payload).unwrap();
    assert_eq!(
        item,
        ReceivedItem::Event { evt: "MESSAGE_CREATE".to_string(), payload: payload.to_string() }
    );
}

#[test]
fn command_payloads_classify_as_command_responses() {
    let payload = "{\"cmd\":\"GET_GUILDS\",\"data\":{\"guilds\":[]}}";
    let item = classify_payload(payload).unwrap();
    assert_eq!(
        item,
        ReceivedItem::Command { cmd: "GET_GUILDS".to_string(), payload: payload.to_string() }
    );
}

#[test]
fn classification_tries_the_event_shape_first() {
    let payload = "{\"evt\":\"READY\",\"cmd\":\"DISPATCH\"}";
    let item = classify_payload(payload).unwrap();
    assert!(matches!(item, ReceivedItem::Event { .. }));
}

#[test]
fn a_non_string_event_tag_falls_back_to_the_command_shape() {
    let payload = "{\"evt\":5,\"cmd\":\"X\"}";
    let item = classify_payload(payload).unwrap();
    assert_eq!(item, ReceivedItem::Command { cmd: "X".to_string(), payload: payload.to_string() });
}

#[test]
fn invalid_json_is_a_decode_failure() {
    assert_eq!(classify_payload("not json"), Err(DiscordRPCError::SerdeJson));
    assert_eq!(classify_payload(""), Err(DiscordRPCError::SerdeJson));
}

#[test]
fn valid_json_matching_neither_shape_is_a_decode_failure() {
    assert_eq!(classify_payload("[1,2,3]"), Err(DiscordRPCError::SerdeJson));
    assert_eq!(classify_payload("{\"data\":{}}"), Err(DiscordRPCError::SerdeJson));
    assert_eq!(classify_payload("17"), Err(DiscordRPCError::SerdeJson));
}

#[test]
fn loop_delivers_classified_messages() {
    let item = ReceivedItem::Event { evt: "E".to_string(), payload: "{}".to_string() };
    let a = loop_step(RecvOutcome::Frame(Ok(item)));
    assert!(matches!(a, LoopAction::Deliver(_)));
}

#[test]
fn loop_survives_decode_failures() {
    let a = loop_step(RecvOutcome::Frame(Err(DiscordRPCError::SerdeJson)));
    assert_eq!(a, LoopAction::ReportAndContinue);
}

#[test]
fn loop_stops_only_on_channel_failure() {
    let a = loop_step(RecvOutcome::Closed(DiscordRPCError::Io));
    assert_eq!(a, LoopAction::Stop);
}

#[test]
fn dispatch_preserves_arrival_order() {
    let mut outcomes: Vec<Result<ReceivedItem, DiscordRPCError>> = Vec::new();
    for i in 0..5 {
        outcomes.push(Ok(ReceivedItem::Event {
            evt: format!("E{}", i),
            payload: format!("{{\"evt\":\"E{}\"}}", i),
        }));
    }
    let (delivered, reported) = dispatch_in_order(outcomes);
    assert_eq!(reported, 0);
    assert_eq!(delivered.len(), 5);
    for (i, item) in delivered.iter().enumerate() {
        match item {
            ReceivedItem::Event { evt, .. } => assert_eq!(*evt, format!("E{}", i)),
            _ => panic!("expected an event"),
        }
    }
}

#[test]
fn dispatch_counts_failures_without_stopping() {
    let outcomes: Vec<Result<ReceivedItem, DiscordRPCError>> = vec![
        Ok(ReceivedItem::Event { evt: "A".to_string(), payload: "{}".to_string() }),
        Err(DiscordRPCError::SerdeJson),
        Err(DiscordRPCError::SerdeJson),
        Ok(ReceivedItem::Command { cmd: "B".to_string(), payload: "{}".to_string() }),
    ];
    let (delivered, reported) = dispatch_in_order(outcomes);
    assert_eq!(reported, 2);
    assert_eq!(delivered.len(), 2);
}

#[test]
fn back_to_back_frames_reach_the_callback_in_order() {
    let mut payloads: Vec<String> = Vec::new();
    for i in 0..6 {
        payloads.push(format!("{{\"evt\":\"EVENT_{}\",\"data\":{{}}}}", i));
    }
    let (delivered, reported) = process_payloads(&payloads);
    assert_eq!(reported, 0);
    assert_eq!(delivered.len(), 6);
    for (i, item) in delivered.iter().enumerate() {
        match item {
            ReceivedItem::Event { evt, payload } => {
                assert_eq!(*evt, format!("EVENT_{}", i));
                assert_eq!(*payload, payloads[i]);
            },
            _ => panic!("expected an event"),
        }
    }
}

#[test]
fn one_malformed_frame_between_two_valid_ones_is_reported_not_fatal() {
    let payloads = vec![
        "{\"evt\":\"FIRST\",\"data\":{}}".to_string(),
        "{\"evt\":\"BROKEN\"".to_string(),
        "{\"evt\":\"SECOND\",\"data\":{}}".to_string(),
    ];
    let (delivered, reported) = process_payloads(&payloads);
    assert_eq!(reported, 1);
    assert_eq!(delivered.len(), 2);
    match &delivered[0] {
        ReceivedItem::Event { evt, .. } => assert_eq!(evt, "FIRST"),
        _ => panic!("expected an event"),
    }
    match &delivered[1] {
        ReceivedItem::Event { evt, .. } => assert_eq!(evt, "SECOND"),
        _ => panic!("expected an event"),
    }
}
